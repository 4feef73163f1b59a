//! Plain values exchanged with the remote budget and telemetry service.

use vstd::arithmetic::div_mod::{lemma_div_nonincreasing, lemma_div_pos_is_pos};
use vstd::prelude::*;
use vstd::string::*;

verus! {

/// Number of stored parts in one whole unit of a fractional amount.
pub const PICO_PER_UNIT: i128 = 1_000_000_000_000;

/// Number of micro-coral in one coral.
pub const MICRO_CORAL_TO_CORAL: i128 = 1_000_000;

/// Number of stored parts of a fractional amount in one millionth of its unit.
pub const PICO_PER_MICRO: i128 = 1_000_000;

/// Quotient of `a` by `b` rounded toward zero, for `b != 0`.
pub open spec fn trunc_div(a: int, b: int) -> int {
    if a >= 0 && b > 0 {
        a / b
    } else if a >= 0 {
        -(a / (-b))
    } else if b > 0 {
        -((-a) / b)
    } else {
        (-a) / (-b)
    }
}

/// `value / divisor` rounded toward zero.
pub fn div_toward_zero(value: i128, divisor: u64) -> (quotient: i128)
    requires
        divisor != 0,
    ensures
        quotient == trunc_div(value as int, divisor as int),
        value >= 0 ==> 0 <= quotient <= value,
        value <= 0 ==> value <= quotient <= 0,
{
    let d: i128 = divisor as i128;
    proof {
        if value >= 0 {
            lemma_div_pos_is_pos(value as int, d as int);
            lemma_div_nonincreasing(value as int, d as int);
        } else {
            lemma_div_pos_is_pos(-(value as int), d as int);
            lemma_div_nonincreasing(-(value as int), d as int);
        }
    }
    value / d
}

/// An amount of money in one of three units.
///
/// The two fractional units are held as a whole number of `10^-12` parts of
/// the unit, so that a price per million events is still exact; the micro
/// unit is a whole number of micro-coral.
#[derive(Clone, Copy, Debug, PartialEq, Eq, Structural)]
pub enum ClaimAmount {
    /// Fiat currency, in `10^-12` dollars.
    Usd(i128),
    /// Whole micro-coral.
    MicroCoral(i64),
    /// Coral, in `10^-12` coral.
    Coral(i128),
}

impl ClaimAmount {
    /// The stored number, whatever the unit.
    pub open spec fn magnitude(self) -> int {
        match self {
            ClaimAmount::Usd(v) => v as int,
            ClaimAmount::MicroCoral(v) => v as int,
            ClaimAmount::Coral(v) => v as int,
        }
    }

    /// Both amounts are in the same unit.
    pub open spec fn same_unit(self, other: ClaimAmount) -> bool {
        match (self, other) {
            (ClaimAmount::Usd(_), ClaimAmount::Usd(_)) => true,
            (ClaimAmount::MicroCoral(_), ClaimAmount::MicroCoral(_)) => true,
            (ClaimAmount::Coral(_), ClaimAmount::Coral(_)) => true,
            _ => false,
        }
    }

    /// The unit of `self` can store the number `m`.
    pub open spec fn can_hold(self, m: int) -> bool {
        match self {
            ClaimAmount::MicroCoral(_) => i64::MIN <= m <= i64::MAX,
            _ => i128::MIN <= m <= i128::MAX,
        }
    }

    /// The amount of the same unit that stores the number `m`.
    pub open spec fn with_magnitude(self, m: int) -> ClaimAmount {
        match self {
            ClaimAmount::Usd(_) => ClaimAmount::Usd(m as i128),
            ClaimAmount::MicroCoral(_) => ClaimAmount::MicroCoral(m as i64),
            ClaimAmount::Coral(_) => ClaimAmount::Coral(m as i128),
        }
    }

    /// The amount divided by `divisor`, rounded toward zero.
    pub open spec fn spec_div(self, divisor: u64) -> ClaimAmount {
        self.with_magnitude(trunc_div(self.magnitude(), divisor as int))
    }

    /// The amount taken `factor` times, where its unit can store that.
    pub open spec fn spec_mul(self, factor: u64) -> Option<ClaimAmount> {
        if self.can_hold(self.magnitude() * factor) {
            Some(self.with_magnitude(self.magnitude() * factor))
        } else {
            None
        }
    }

    pub open spec fn spec_is_zero(self) -> bool {
        self.magnitude() == 0
    }

    /// Whether the amount is nothing at all.
    #[verifier::when_used_as_spec(spec_is_zero)]
    pub fn is_zero(self) -> (zero: bool)
        ensures
            zero == self.spec_is_zero(),
    {
        match self {
            ClaimAmount::Usd(v) => v == 0,
            ClaimAmount::MicroCoral(v) => v == 0,
            ClaimAmount::Coral(v) => v == 0,
        }
    }

    /// The amount divided by `divisor`, rounded toward zero, in the same unit.
    pub fn div(self, divisor: u64) -> (part: ClaimAmount)
        requires
            divisor != 0,
        ensures
            part == self.spec_div(divisor),
    {
        match self {
            ClaimAmount::Usd(v) => ClaimAmount::Usd(div_toward_zero(v, divisor)),
            ClaimAmount::MicroCoral(v) => {
                let q: i128 = div_toward_zero(v as i128, divisor);
                ClaimAmount::MicroCoral(q as i64)
            },
            ClaimAmount::Coral(v) => ClaimAmount::Coral(div_toward_zero(v, divisor)),
        }
    }

    /// The amount taken `factor` times, in the same unit, or `None` where the
    /// unit cannot store the product.
    pub fn mul(self, factor: u64) -> (product: Option<ClaimAmount>)
        ensures
            product == self.spec_mul(factor),
    {
        match self {
            ClaimAmount::Usd(v) => match v.checked_mul(factor as i128) {
                Some(p) => Some(ClaimAmount::Usd(p)),
                None => None,
            },
            ClaimAmount::MicroCoral(v) => {
                assert(-0x8000_0000_0000_0000 * 0xffff_ffff_ffff_ffff <= (v as int) * (factor as int)
                    <= 0x8000_0000_0000_0000 * 0xffff_ffff_ffff_ffff) by (nonlinear_arith)
                    requires
                        -0x8000_0000_0000_0000 <= v as int <= 0x8000_0000_0000_0000,
                        0 <= factor as int <= 0xffff_ffff_ffff_ffff,
                ;
                let wide: i128 = (v as i128) * (factor as i128);
                if wide < i64::MIN as i128 || wide > i64::MAX as i128 {
                    None
                } else {
                    Some(ClaimAmount::MicroCoral(wide as i64))
                }
            },
            ClaimAmount::Coral(v) => match v.checked_mul(factor as i128) {
                Some(p) => Some(ClaimAmount::Coral(p)),
                None => None,
            },
        }
    }
}

/// What the remote ledger answers to a claim.
#[derive(Clone, Copy, Debug, PartialEq, Eq, Structural)]
pub struct ClaimResponse {
    /// Budget left after the claim, in micro-coral.
    pub remaining_budget: i64,
    /// Price of one coral, in `10^-12` dollars.
    pub coral_usd_price: i64,
}

/// A conversation message that a round's telemetry is attached to.
#[derive(Clone, Debug, PartialEq, Eq)]
pub struct TelemetryTarget {
    pub message_id: String,
    pub thread_id: String,
}

impl View for TelemetryTarget {
    type V = (Seq<char>, Seq<char>);

    open spec fn view(&self) -> (Seq<char>, Seq<char>) {
        (self.message_id@, self.thread_id@)
    }
}

/// A message as the provider reports it after sending.
#[derive(Clone, Debug, PartialEq, Eq)]
pub struct SentMessage {
    pub id: String,
    pub thread_id: String,
}

/// What a provider tool's textual output was recognised as.
#[derive(Clone, Debug, PartialEq, Eq)]
pub enum McpToolResult {
    /// The output reports a message that was sent.
    SendMessageSuccess { message: SentMessage },
    /// The output is well formed and reports something else.
    Other,
    /// The output could not be read.
    Unreadable,
}

pub enum McpToolResultView {
    SendMessageSuccess { id: Seq<char>, thread_id: Seq<char> },
    Other,
    Unreadable,
}

impl View for McpToolResult {
    type V = McpToolResultView;

    open spec fn view(&self) -> McpToolResultView {
        match self {
            McpToolResult::SendMessageSuccess { message } => McpToolResultView::SendMessageSuccess {
                id: message.id@,
                thread_id: message.thread_id@,
            },
            McpToolResult::Other => McpToolResultView::Other,
            McpToolResult::Unreadable => McpToolResultView::Unreadable,
        }
    }
}

/// Names of provider tools that the engine knows by name.
#[derive(Clone, Copy, Debug, PartialEq, Eq, Structural)]
#[non_exhaustive]
pub enum McpToolName {
    CoralSendMessage,
}

impl McpToolName {
    /// The name under which the provider lists the tool.
    pub open spec fn spec_name(self) -> Seq<char> {
        match self {
            McpToolName::CoralSendMessage => "coral_send_message"@,
        }
    }

    /// The name under which the provider lists the tool.
    pub fn as_str(self) -> (name: &'static str)
        ensures
            name@ == self.spec_name(),
    {
        match self {
            McpToolName::CoralSendMessage => "coral_send_message",
        }
    }

    /// The tool that `name` names, if it is one the engine knows.
    pub fn parse(name: &str) -> (tool: Option<McpToolName>)
        ensures
            tool == if name@ == McpToolName::CoralSendMessage.spec_name() {
                Some(McpToolName::CoralSendMessage)
            } else {
                None::<McpToolName>
            },
    {
        if str_eq(name, "coral_send_message") {
            Some(McpToolName::CoralSendMessage)
        } else {
            None
        }
    }
}

/// Whether two string slices hold the same characters.
pub fn str_eq(a: &str, b: &str) -> (same: bool)
    ensures
        same == (a@ == b@),
{
    let x: String = a.to_owned();
    let y: String = b.to_owned();
    x == y
}

} // verus!
