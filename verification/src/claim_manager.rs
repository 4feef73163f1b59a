//! The budget ledger: turns billable events into claims against the remote
//! budget and decides when the budget is exhausted.
//!
//! The manager decides; it sends nothing. For each event it returns the
//! claims that are to be sent to the remote ledger, in order, and for each
//! answer of the ledger it says whether the run may go on.

use crate::api::{
    div_toward_zero, trunc_div, ClaimAmount, ClaimResponse, McpToolName, MICRO_CORAL_TO_CORAL,
    PICO_PER_MICRO,
};
use crate::error::Error;
use vstd::arithmetic::div_mod::{lemma_fundamental_div_mod, lemma_mod_bound};
use vstd::hash_map::StringHashMap;
use vstd::prelude::*;
use vstd::string::*;

verus! {

/// Token counts of one completion, as the model provider reported them.
#[derive(Clone, Copy, Debug, PartialEq, Eq, Structural)]
pub struct Usage {
    pub input_tokens: u64,
    pub output_tokens: u64,
    pub total_tokens: u64,
}

/// When an agent runs in remote mode it makes claims: it states that it did
/// a certain amount of work for a certain amount of currency. The remote
/// ledger answers each claim with the budget that remains.
///
/// The manager holds the prices and the rules. Claims are only made while the
/// switch `send_claims` is set; without it the agent runs in local mode.
pub struct ClaimManager {
    /// The cost of one input token.
    input_token_cost: ClaimAmount,
    /// The cost of one output token.
    output_token_cost: ClaimAmount,
    /// The budget that must remain for the agent to go on.
    min_budget: ClaimAmount,
    /// A cost added for any invocation of a tool.
    base_tool_call_cost: ClaimAmount,
    /// Costs of single tools by name, billed on top of the base cost.
    custom_tool_cost: StringHashMap<ClaimAmount>,
    /// The cost of one prompt iteration.
    base_iteration_cost: ClaimAmount,
    /// The cost of one tool iteration: exactly one completion request.
    base_tool_iteration_cost: ClaimAmount,
    /// Whether the agent stops when the budget is exhausted.
    exit_on_budget_exhausted: bool,
    /// Address of the remote ledger.
    api_url: String,
    /// The session that claims are made for.
    remote_session_id: String,
    /// Whether claims are sent at all.
    send_claims: bool,
}

/// The mathematical content of a manager.
pub struct ClaimManagerView {
    pub input_token_cost: ClaimAmount,
    pub output_token_cost: ClaimAmount,
    pub min_budget: ClaimAmount,
    pub base_tool_call_cost: ClaimAmount,
    pub custom_tool_cost: Map<Seq<char>, ClaimAmount>,
    pub base_iteration_cost: ClaimAmount,
    pub base_tool_iteration_cost: ClaimAmount,
    pub exit_on_budget_exhausted: bool,
    pub api_url: Seq<char>,
    pub remote_session_id: Seq<char>,
    pub send_claims: bool,
}

/// `v` limited to what a 64-bit signed number holds.
pub open spec fn clamp_i64(v: int) -> int {
    if v > i64::MAX {
        i64::MAX as int
    } else if v < i64::MIN {
        i64::MIN as int
    } else {
        v
    }
}

/// The floor `min_budget` in micro-coral, the unit in which the remote ledger
/// reports what remains, at a price of `price` `10^-12` dollars per coral.
///
/// A floor in coral is worth a million times as many micro-coral. A floor in
/// dollars is worth as many coral as the price buys; at a price of nothing a
/// positive floor is out of reach and a negative one is always met.
/// Fractions of a micro-coral are dropped, and the result is limited to what
/// the ledger's unit holds.
pub open spec fn floor_in_micro_coral(min_budget: ClaimAmount, price: int) -> int {
    match min_budget {
        ClaimAmount::Coral(c) => clamp_i64(trunc_div(c as int, PICO_PER_MICRO as int)),
        ClaimAmount::MicroCoral(m) => m as int,
        ClaimAmount::Usd(u) => if price == 0 {
            if u > 0 {
                i64::MAX as int
            } else if u < 0 {
                i64::MIN as int
            } else {
                0
            }
        } else {
            clamp_i64(trunc_div(u * MICRO_CORAL_TO_CORAL, price))
        },
    }
}

impl ClaimManagerView {
    /// What is sent for one claim of `amount`: the amount itself, or nothing
    /// where claims are switched off or the amount is zero.
    pub open spec fn claim(self, amount: ClaimAmount) -> Seq<ClaimAmount> {
        if self.send_claims && !amount.is_zero() {
            seq![amount]
        } else {
            Seq::empty()
        }
    }

    /// What is sent for a claim of `factor` times `cost`, or `None` where the
    /// product is out of range.
    pub open spec fn scaled_claim(self, cost: ClaimAmount, factor: u64) -> Option<
        Seq<ClaimAmount>,
    > {
        match cost.spec_mul(factor) {
            Some(product) => Some(self.claim(product)),
            None => None,
        }
    }

    /// What is sent for the tokens of one completion, or `None` where an
    /// amount is out of range.
    ///
    /// Nothing, where both token costs are zero or claims are switched off.
    /// Where the provider reported only a total (input and output do not add
    /// up to it), the total at the output cost. Otherwise the input tokens at
    /// the input cost, then the output tokens at the output cost.
    pub open spec fn token_claims(self, usage: Usage) -> Option<Seq<ClaimAmount>> {
        if !self.send_claims || (self.input_token_cost.is_zero()
            && self.output_token_cost.is_zero()) {
            Some(Seq::empty())
        } else if usage.input_tokens + usage.output_tokens != usage.total_tokens {
            self.scaled_claim(self.output_token_cost, usage.total_tokens)
        } else if usage.total_tokens == 0 {
            Some(Seq::empty())
        } else {
            match (
                self.scaled_claim(self.input_token_cost, usage.input_tokens),
                self.scaled_claim(self.output_token_cost, usage.output_tokens),
            ) {
                (Some(input), Some(output)) => Some(input + output),
                _ => None,
            }
        }
    }

    /// What is sent for one prompt iteration.
    pub open spec fn iteration_claims(self) -> Seq<ClaimAmount> {
        self.claim(self.base_iteration_cost)
    }

    /// What is sent for one tool iteration.
    pub open spec fn tool_iteration_claims(self) -> Seq<ClaimAmount> {
        self.claim(self.base_tool_iteration_cost)
    }

    /// What is sent for one call of the tool `name`: the base cost, then the
    /// tool's own cost where it has one. Both are billed.
    pub open spec fn tool_call_claims(self, name: Seq<char>) -> Seq<ClaimAmount> {
        self.claim(self.base_tool_call_cost) + if self.custom_tool_cost.dom().contains(name) {
            self.claim(self.custom_tool_cost[name])
        } else {
            Seq::empty()
        }
    }

    /// The budget that the ledger reports is exhausted: the manager is set to
    /// stop on exhaustion, and what remains is at or below the floor.
    pub open spec fn exhausted(self, response: ClaimResponse) -> bool {
        self.exit_on_budget_exhausted && response.remaining_budget <= floor_in_micro_coral(
            self.min_budget,
            response.coral_usd_price as int,
        )
    }
}

/// An event at no cost is never claimed: nothing is sent for a zero amount.
pub proof fn law_zero_amount_is_never_sent(m: ClaimManagerView, amount: ClaimAmount)
    requires
        amount.is_zero(),
    ensures
        m.claim(amount).len() == 0,
{
}

/// While claims are switched off nothing is sent, whatever the event costs.
pub proof fn law_nothing_is_sent_when_disabled(
    m: ClaimManagerView,
    amount: ClaimAmount,
    usage: Usage,
    name: Seq<char>,
)
    requires
        !m.send_claims,
    ensures
        m.claim(amount).len() == 0,
        m.token_claims(usage) == Some(Seq::<ClaimAmount>::empty()),
        m.iteration_claims().len() == 0,
        m.tool_iteration_claims().len() == 0,
        m.tool_call_claims(name).len() == 0,
{
}

/// An event whose costs are all zero sends nothing.
pub proof fn law_free_event_sends_nothing(m: ClaimManagerView, usage: Usage, name: Seq<char>)
    ensures
        m.base_iteration_cost.is_zero() ==> m.iteration_claims().len() == 0,
        m.base_tool_iteration_cost.is_zero() ==> m.tool_iteration_claims().len() == 0,
        m.base_tool_call_cost.is_zero() && (m.custom_tool_cost.dom().contains(name)
            ==> m.custom_tool_cost[name].is_zero()) ==> m.tool_call_claims(name).len() == 0,
        m.input_token_cost.is_zero() && m.output_token_cost.is_zero() ==> m.token_claims(usage)
            == Some(Seq::<ClaimAmount>::empty()),
{
}

/// Whatever is sent is an amount other than zero, sent while claims are on.
pub proof fn law_sent_claims_are_billable(
    m: ClaimManagerView,
    usage: Usage,
    name: Seq<char>,
    sent: Seq<ClaimAmount>,
    k: int,
)
    requires
        sent == m.iteration_claims() || sent == m.tool_iteration_claims() || sent
            == m.tool_call_claims(name) || m.token_claims(usage) == Some(sent),
        0 <= k < sent.len(),
    ensures
        m.send_claims,
        !sent[k].is_zero(),
{
}

/// The magnitude of `v`.
fn magnitude_of(v: i128) -> (m: u128)
    ensures
        v >= 0 ==> m == v,
        v < 0 ==> m == -v,
{
    if v >= 0 {
        v as u128
    } else if v == i128::MIN {
        0x8000_0000_0000_0000_0000_0000_0000_0000u128
    } else {
        (-v) as u128
    }
}

/// `sign * magnitude`, limited to what a 64-bit signed number holds.
fn signed_clamp(negative: bool, magnitude: u128) -> (v: i64)
    ensures
        v == clamp_i64(
            if negative {
                -(magnitude as int)
            } else {
                magnitude as int
            },
        ),
{
    if negative {
        if magnitude >= 0x8000_0000_0000_0000u128 {
            i64::MIN
        } else {
            -(magnitude as i64)
        }
    } else {
        if magnitude > 0x7fff_ffff_ffff_ffffu128 {
            i64::MAX
        } else {
            magnitude as i64
        }
    }
}

/// A quotient whose numerator is beyond 128 bits and whose divisor is within
/// 63 bits is beyond 64 bits.
proof fn lemma_large_quotient(n: int, d: int)
    requires
        n > u128::MAX,
        0 < d <= 0x8000_0000_0000_0000,
    ensures
        n / d > 0x8000_0000_0000_0000,
{
    let q = n / d;
    lemma_fundamental_div_mod(n, d);
    lemma_mod_bound(n, d);
    if q <= 0x8000_0000_0000_0000 {
        assert(d * q <= 0x8000_0000_0000_0000 * 0x8000_0000_0000_0000) by (nonlinear_arith)
            requires
                0 < d <= 0x8000_0000_0000_0000,
                q <= 0x8000_0000_0000_0000,
        ;
    }
}

/// The floor `usd` (in `10^-12` dollars) in micro-coral at `price`.
fn usd_floor_in_micro_coral(usd: i128, price: i64) -> (floor: i64)
    ensures
        floor == floor_in_micro_coral(ClaimAmount::Usd(usd), price as int),
{
    if price == 0 {
        if usd > 0 {
            i64::MAX
        } else if usd < 0 {
            i64::MIN
        } else {
            0
        }
    } else {
        let negative = (usd < 0) != (price < 0);
        let u: u128 = magnitude_of(usd);
        let p: u128 = magnitude_of(price as i128);
        let ghost exact = trunc_div(usd * MICRO_CORAL_TO_CORAL, price as int);
        proof {
            assert((u as int) * 1_000_000 >= 0) by (nonlinear_arith)
                requires
                    u >= 0,
            ;
            assert(usd >= 0 ==> usd * 1_000_000 == (u as int) * 1_000_000 && usd * 1_000_000
                >= 0) by (nonlinear_arith)
                requires
                    usd >= 0 ==> u == usd,
            ;
            assert(usd < 0 ==> -(usd * 1_000_000) == (u as int) * 1_000_000 && (usd * 1_000_000 < 0))
                by (nonlinear_arith)
                requires
                    usd < 0 ==> u == -usd,
            ;
            assert(exact == if negative {
                -(((u as int) * 1_000_000) / (p as int))
            } else {
                ((u as int) * 1_000_000) / (p as int)
            }) by {
                if usd == 0 {
                    assert(0int / (p as int) == 0) by (nonlinear_arith)
                        requires
                            p > 0,
                    ;
                }
            }
        }
        match u.checked_mul(1_000_000u128) {
            Some(scaled) => {
                let q: u128 = scaled / p;
                signed_clamp(negative, q)
            },
            None => {
                proof {
                    lemma_large_quotient((u as int) * 1_000_000, p as int);
                }
                if negative {
                    i64::MIN
                } else {
                    i64::MAX
                }
            },
        }
    }
}

impl View for ClaimManager {
    type V = ClaimManagerView;

    closed spec fn view(&self) -> ClaimManagerView {
        ClaimManagerView {
            input_token_cost: self.input_token_cost,
            output_token_cost: self.output_token_cost,
            min_budget: self.min_budget,
            base_tool_call_cost: self.base_tool_call_cost,
            custom_tool_cost: self.custom_tool_cost@,
            base_iteration_cost: self.base_iteration_cost,
            base_tool_iteration_cost: self.base_tool_iteration_cost,
            exit_on_budget_exhausted: self.exit_on_budget_exhausted,
            api_url: self.api_url@,
            remote_session_id: self.remote_session_id@,
            send_claims: self.send_claims,
        }
    }
}

impl ClaimManager {
    /// Creates a claim manager with every price set to zero, for the ledger
    /// at `api_url` and the session `remote_session_id`. Claims are only sent
    /// while `send_claims` is set.
    pub fn new(api_url: String, remote_session_id: String, send_claims: bool) -> (manager: Self)
        ensures
            manager@ == (ClaimManagerView {
                input_token_cost: ClaimAmount::MicroCoral(0),
                output_token_cost: ClaimAmount::MicroCoral(0),
                min_budget: ClaimAmount::MicroCoral(0),
                base_tool_call_cost: ClaimAmount::MicroCoral(0),
                custom_tool_cost: Map::empty(),
                base_iteration_cost: ClaimAmount::MicroCoral(0),
                base_tool_iteration_cost: ClaimAmount::MicroCoral(0),
                exit_on_budget_exhausted: true,
                api_url: api_url@,
                remote_session_id: remote_session_id@,
                send_claims,
            }),
    {
        Self {
            input_token_cost: ClaimAmount::MicroCoral(0),
            output_token_cost: ClaimAmount::MicroCoral(0),
            min_budget: ClaimAmount::MicroCoral(0),
            base_tool_call_cost: ClaimAmount::MicroCoral(0),
            custom_tool_cost: StringHashMap::new(),
            base_iteration_cost: ClaimAmount::MicroCoral(0),
            base_tool_iteration_cost: ClaimAmount::MicroCoral(0),
            exit_on_budget_exhausted: true,
            api_url,
            remote_session_id,
            send_claims,
        }
    }

    /// Sets the cost per single input token.
    pub fn input_token_cost(self, input_token_cost: ClaimAmount) -> (manager: Self)
        ensures
            manager@ == (ClaimManagerView { input_token_cost, ..self@ }),
    {
        let mut manager = self;
        manager.input_token_cost = input_token_cost;
        manager
    }

    /// Sets the cost per million input tokens.
    pub fn mil_input_token_cost(self, input_token_cost: ClaimAmount) -> (manager: Self)
        ensures
            manager@ == (ClaimManagerView {
                input_token_cost: input_token_cost.spec_div(1_000_000),
                ..self@
            }),
    {
        let mut manager = self;
        manager.input_token_cost = input_token_cost.div(1_000_000);
        manager
    }

    /// Sets the cost per single output token.
    pub fn output_token_cost(self, output_token_cost: ClaimAmount) -> (manager: Self)
        ensures
            manager@ == (ClaimManagerView { output_token_cost, ..self@ }),
    {
        let mut manager = self;
        manager.output_token_cost = output_token_cost;
        manager
    }

    /// Sets the cost per million output tokens.
    pub fn mil_output_token_cost(self, output_token_cost: ClaimAmount) -> (manager: Self)
        ensures
            manager@ == (ClaimManagerView {
                output_token_cost: output_token_cost.spec_div(1_000_000),
                ..self@
            }),
    {
        let mut manager = self;
        manager.output_token_cost = output_token_cost.div(1_000_000);
        manager
    }

    /// Sets the minimum budget.
    pub fn min_budget(self, min_budget: ClaimAmount) -> (manager: Self)
        ensures
            manager@ == (ClaimManagerView { min_budget, ..self@ }),
    {
        let mut manager = self;
        manager.min_budget = min_budget;
        manager
    }

    /// Sets the base tool call cost.
    pub fn base_tool_call_cost(self, base_tool_call_cost: ClaimAmount) -> (manager: Self)
        ensures
            manager@ == (ClaimManagerView { base_tool_call_cost, ..self@ }),
    {
        let mut manager = self;
        manager.base_tool_call_cost = base_tool_call_cost;
        manager
    }

    /// Sets the base iteration cost.
    pub fn base_iteration_cost(self, base_iteration_cost: ClaimAmount) -> (manager: Self)
        ensures
            manager@ == (ClaimManagerView { base_iteration_cost, ..self@ }),
    {
        let mut manager = self;
        manager.base_iteration_cost = base_iteration_cost;
        manager
    }

    /// Sets the base tool iteration cost.
    pub fn base_tool_iteration_cost(self, base_tool_iteration_cost: ClaimAmount) -> (manager: Self)
        ensures
            manager@ == (ClaimManagerView { base_tool_iteration_cost, ..self@ }),
    {
        let mut manager = self;
        manager.base_tool_iteration_cost = base_tool_iteration_cost;
        manager
    }

    /// Sets whether to exit when the budget has been exhausted.
    pub fn exit_on_budget_exhausted(self, exit_on_budget_exhausted: bool) -> (manager: Self)
        ensures
            manager@ == (ClaimManagerView { exit_on_budget_exhausted, ..self@ }),
    {
        let mut manager = self;
        manager.exit_on_budget_exhausted = exit_on_budget_exhausted;
        manager
    }

    /// Adds a custom tool cost by name; an earlier cost under that name is
    /// replaced.
    pub fn custom_tool_cost(self, tool_name: String, cost: ClaimAmount) -> (manager: Self)
        ensures
            manager@ == (ClaimManagerView {
                custom_tool_cost: self@.custom_tool_cost.insert(tool_name@, cost),
                ..self@
            }),
    {
        let mut manager = self;
        manager.custom_tool_cost.insert(tool_name, cost);
        manager
    }

    /// Adds a tool cost for a tool that the engine knows by name.
    pub fn coral_custom_tool_cost(self, tool_name: McpToolName, cost: ClaimAmount) -> (manager:
        Self)
        ensures
            manager@ == (ClaimManagerView {
                custom_tool_cost: self@.custom_tool_cost.insert(tool_name.spec_name(), cost),
                ..self@
            }),
    {
        self.custom_tool_cost(tool_name.as_str().to_owned(), cost)
    }

    /// Address of the remote ledger.
    pub fn api_url(&self) -> (url: &String)
        ensures
            url@ == self@.api_url,
    {
        &self.api_url
    }

    /// The session that claims are made for.
    pub fn remote_session_id(&self) -> (id: &String)
        ensures
            id@ == self@.remote_session_id,
    {
        &self.remote_session_id
    }

    /// Decides one claim: the amount to send to the remote ledger, or `None`
    /// where nothing is sent, because claims are switched off or the amount
    /// is zero.
    pub fn claim(&self, amount: ClaimAmount) -> (request: Option<ClaimAmount>)
        ensures
            request == if self@.send_claims && !amount.is_zero() {
                Some(amount)
            } else {
                None::<ClaimAmount>
            },
    {
        if !self.send_claims {
            return None;
        }
        if amount.is_zero() {
            return None;
        }
        Some(amount)
    }

    /// Appends what is sent for one claim of `amount`.
    fn push_claim(&self, claims: &mut Vec<ClaimAmount>, amount: ClaimAmount)
        ensures
            final(claims)@ == old(claims)@ + self@.claim(amount),
    {
        match self.claim(amount) {
            Some(request) => {
                claims.push(request);
                proof {
                    assert(claims@ =~= old(claims)@ + self@.claim(amount));
                }
            },
            None => {
                proof {
                    assert(claims@ =~= old(claims)@ + self@.claim(amount));
                }
            },
        }
    }

    /// Appends what is sent for `factor` times `cost`; says `false`, and
    /// appends nothing, where the product is out of range.
    fn push_scaled_claim(&self, claims: &mut Vec<ClaimAmount>, cost: ClaimAmount, factor: u64) -> (ok:
        bool)
        ensures
            ok == self@.scaled_claim(cost, factor) is Some,
            ok ==> final(claims)@ == old(claims)@ + self@.scaled_claim(cost, factor).unwrap(),
            !ok ==> final(claims)@ == old(claims)@,
    {
        match cost.mul(factor) {
            Some(product) => {
                self.push_claim(claims, product);
                true
            },
            None => false,
        }
    }

    /// The claims to send for the tokens of one completion, in order.
    ///
    /// Fails with `AmountOverflow` where a cost times a token count is more
    /// than its unit can express; nothing is to be sent then.
    pub fn claim_tokens(&self, usage: &Usage) -> (claims: Result<Vec<ClaimAmount>, Error>)
        ensures
            claims is Ok <==> self@.token_claims(*usage) is Some,
            claims matches Ok(sent) ==> sent@ == self@.token_claims(*usage).unwrap(),
            claims matches Err(e) ==> e is AmountOverflow,
    {
        let mut sent: Vec<ClaimAmount> = Vec::new();
        if !self.send_claims || (self.input_token_cost.is_zero()
            && self.output_token_cost.is_zero()) {
            return Ok(sent);
        }
        if usage.input_tokens as u128 + usage.output_tokens as u128 != usage.total_tokens as u128 {
            // The provider gave the usage as a total only: the output price
            // is used, and an input price is left aside.
            if !self.push_scaled_claim(&mut sent, self.output_token_cost, usage.total_tokens) {
                return Err(Error::AmountOverflow);
            }
        } else if usage.total_tokens != 0 {
            if !self.push_scaled_claim(&mut sent, self.input_token_cost, usage.input_tokens) {
                return Err(Error::AmountOverflow);
            }
            if !self.push_scaled_claim(&mut sent, self.output_token_cost, usage.output_tokens) {
                return Err(Error::AmountOverflow);
            }
            proof {
                assert(sent@ =~= self@.token_claims(*usage).unwrap());
            }
        }
        Ok(sent)
    }

    /// The claims to send for one prompt iteration.
    pub fn claim_iteration(&self) -> (sent: Vec<ClaimAmount>)
        ensures
            sent@ == self@.iteration_claims(),
    {
        let mut sent: Vec<ClaimAmount> = Vec::new();
        self.push_claim(&mut sent, self.base_iteration_cost);
        sent
    }

    /// The claims to send for one tool iteration.
    pub fn claim_tool_iteration(&self) -> (sent: Vec<ClaimAmount>)
        ensures
            sent@ == self@.tool_iteration_claims(),
    {
        let mut sent: Vec<ClaimAmount> = Vec::new();
        self.push_claim(&mut sent, self.base_tool_iteration_cost);
        sent
    }

    /// The claims to send for one call of the tool `tool_name`, in order.
    pub fn claim_tool_call(&self, tool_name: &str) -> (sent: Vec<ClaimAmount>)
        ensures
            sent@ == self@.tool_call_claims(tool_name@),
    {
        let mut sent: Vec<ClaimAmount> = Vec::new();
        self.push_claim(&mut sent, self.base_tool_call_cost);
        match self.custom_tool_cost.get(tool_name) {
            Some(cost) => {
                self.push_claim(&mut sent, *cost);
            },
            None => {
                proof {
                    assert(sent@ =~= self@.tool_call_claims(tool_name@));
                }
            },
        }
        sent
    }

    /// The floor in micro-coral at the price that the ledger reported.
    pub fn min_budget_micro_coral(&self, coral_usd_price: i64) -> (floor: i64)
        ensures
            floor == floor_in_micro_coral(self@.min_budget, coral_usd_price as int),
    {
        match self.min_budget {
            ClaimAmount::Coral(c) => {
                let q = div_toward_zero(c, 1_000_000);
                if q > i64::MAX as i128 {
                    i64::MAX
                } else if q < i64::MIN as i128 {
                    i64::MIN
                } else {
                    q as i64
                }
            },
            ClaimAmount::MicroCoral(m) => m,
            ClaimAmount::Usd(u) => usd_floor_in_micro_coral(u, coral_usd_price),
        }
    }

    /// Takes the answer of the remote ledger to a claim: fails with
    /// `BudgetExhausted` where the manager stops on exhaustion and what
    /// remains is at or below the floor.
    pub fn settle(&self, response: &ClaimResponse) -> (verdict: Result<(), Error>)
        ensures
            verdict is Err <==> self@.exhausted(*response),
            verdict matches Err(e) ==> e is BudgetExhausted,
    {
        if self.exit_on_budget_exhausted {
            let floor = self.min_budget_micro_coral(response.coral_usd_price);
            if response.remaining_budget <= floor {
                return Err(Error::BudgetExhausted);
            }
        }
        Ok(())
    }
}

} // verus!
