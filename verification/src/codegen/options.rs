//! The code that reads the options of an agent: from the definition of the
//! options to the text of a structure that holds them and of the function
//! that fills it.

use vstd::prelude::*;
use vstd::string::*;

verus! {

/// How the value of an option reaches the agent.
#[derive(Debug, Clone, Copy, PartialEq, Eq, Structural)]
pub enum AgentOptionTransport {
    /// In the variable itself.
    Env,
    /// In a file that the variable names.
    Fs,
}

/// What kind of value an option holds.
#[derive(Debug, Clone, Copy, PartialEq, Eq, Structural)]
pub enum AgentOptionKind {
    Blob,
    ListBlob,
    Bool,
    I8,
    ListI8,
    U8,
    ListU8,
    I16,
    ListI16,
    U16,
    ListU16,
    I32,
    ListI32,
    U32,
    ListU32,
    I64,
    ListI64,
    U64,
    ListU64,
    F32,
    ListF32,
    F64,
    ListF64,
    String,
    ListString,
    Number,
    Secret,
}

/// One option of an agent, as far as the generated code depends on it.
#[derive(Debug, Clone, Copy, PartialEq, Eq, Structural)]
pub struct AgentOption {
    pub kind: AgentOptionKind,
    /// The definition gives a default value.
    pub has_default: bool,
    pub required: Option<bool>,
    pub transport: Option<AgentOptionTransport>,
}

/// The options of an agent by name, in the order in which they are generated.
/// A definition names each option once.
#[derive(Debug, Clone, PartialEq, Eq)]
pub struct AgentDefinition {
    pub options: Vec<(String, AgentOption)>,
}

/// No name occurs twice among the options.
pub open spec fn distinct_names(options: Seq<(String, AgentOption)>) -> bool {
    forall|a: int, b: int| 0 <= a < b < options.len() ==> options[a].0@ != options[b].0@
}

impl AgentDefinition {
    /// The definition names each option once.
    pub open spec fn wf(&self) -> bool {
        distinct_names(self.options@)
    }

    /// Whether the definition names each option once.
    pub fn names_are_distinct(&self) -> (distinct: bool)
        ensures
            distinct == self.wf(),
    {
        let n = self.options.len();
        let mut b: usize = 0;
        while b < n
            invariant
                b <= n,
                n == self.options@.len(),
                forall|x: int, y: int|
                    0 <= x < y < b ==> self.options@[x].0@ != self.options@[y].0@,
            decreases n - b,
        {
            let mut a: usize = 0;
            while a < b
                invariant
                    a <= b < n,
                    n == self.options@.len(),
                    forall|x: int| 0 <= x < a ==> self.options@[x].0@ != self.options@[b as int].0@,
                decreases b - a,
            {
                if self.options[a].0 == self.options[b].0 {
                    return false;
                }
                a += 1;
            }
            b += 1;
        }
        true
    }
}

impl AgentOptionKind {
    /// The kind is read as a list of values. A single blob is read as one.
    pub open spec fn spec_is_list(self) -> bool {
        match self {
            AgentOptionKind::Blob
            | AgentOptionKind::ListBlob
            | AgentOptionKind::ListI8
            | AgentOptionKind::ListU8
            | AgentOptionKind::ListI16
            | AgentOptionKind::ListU16
            | AgentOptionKind::ListI32
            | AgentOptionKind::ListU32
            | AgentOptionKind::ListI64
            | AgentOptionKind::ListU64
            | AgentOptionKind::ListF32
            | AgentOptionKind::ListF64
            | AgentOptionKind::ListString => true,
            _ => false,
        }
    }

    /// The type of one value of the kind, as the generated code names it.
    pub open spec fn spec_value_type(self) -> Seq<char> {
        match self {
            AgentOptionKind::Blob | AgentOptionKind::ListBlob => "::coral_rs::codegen::__private::Blob"@,
            AgentOptionKind::Bool => "bool"@,
            AgentOptionKind::I8 | AgentOptionKind::ListI8 => "i8"@,
            AgentOptionKind::U8 | AgentOptionKind::ListU8 => "u8"@,
            AgentOptionKind::I16 | AgentOptionKind::ListI16 => "i16"@,
            AgentOptionKind::U16 | AgentOptionKind::ListU16 => "u16"@,
            AgentOptionKind::I32 | AgentOptionKind::ListI32 => "i32"@,
            AgentOptionKind::U32 | AgentOptionKind::ListU32 => "u32"@,
            AgentOptionKind::I64 | AgentOptionKind::ListI64 => "i64"@,
            AgentOptionKind::U64 | AgentOptionKind::ListU64 => "u64"@,
            AgentOptionKind::F32 | AgentOptionKind::ListF32 => "f32"@,
            AgentOptionKind::F64 | AgentOptionKind::ListF64 | AgentOptionKind::Number => "f64"@,
            AgentOptionKind::String | AgentOptionKind::ListString | AgentOptionKind::Secret => "String"@,
        }
    }

    /// Whether the kind is read as a list of values.
    pub fn is_list(self) -> (list: bool)
        ensures
            list == self.spec_is_list(),
    {
        match self {
            AgentOptionKind::Blob
            | AgentOptionKind::ListBlob
            | AgentOptionKind::ListI8
            | AgentOptionKind::ListU8
            | AgentOptionKind::ListI16
            | AgentOptionKind::ListU16
            | AgentOptionKind::ListI32
            | AgentOptionKind::ListU32
            | AgentOptionKind::ListI64
            | AgentOptionKind::ListU64
            | AgentOptionKind::ListF32
            | AgentOptionKind::ListF64
            | AgentOptionKind::ListString => true,
            _ => false,
        }
    }

    /// The type of one value of the kind, as the generated code names it.
    pub fn value_type(self) -> (name: &'static str)
        ensures
            name@ == self.spec_value_type(),
    {
        match self {
            AgentOptionKind::Blob | AgentOptionKind::ListBlob => "::coral_rs::codegen::__private::Blob",
            AgentOptionKind::Bool => "bool",
            AgentOptionKind::I8 | AgentOptionKind::ListI8 => "i8",
            AgentOptionKind::U8 | AgentOptionKind::ListU8 => "u8",
            AgentOptionKind::I16 | AgentOptionKind::ListI16 => "i16",
            AgentOptionKind::U16 | AgentOptionKind::ListU16 => "u16",
            AgentOptionKind::I32 | AgentOptionKind::ListI32 => "i32",
            AgentOptionKind::U32 | AgentOptionKind::ListU32 => "u32",
            AgentOptionKind::I64 | AgentOptionKind::ListI64 => "i64",
            AgentOptionKind::U64 | AgentOptionKind::ListU64 => "u64",
            AgentOptionKind::F32 | AgentOptionKind::ListF32 => "f32",
            AgentOptionKind::F64 | AgentOptionKind::ListF64 | AgentOptionKind::Number => "f64",
            AgentOptionKind::String | AgentOptionKind::ListString | AgentOptionKind::Secret => "String",
        }
    }
}

/// What the generated code holds of one option.
#[derive(Debug, Clone, PartialEq, Eq)]
pub struct OptionTypeInfo {
    /// The name of the option, which is the name of its variable.
    pub name: String,
    /// The name of the field that holds the option.
    pub field_name: String,
    /// The field may stay empty.
    pub optional: bool,
    /// The type of the field when it is not empty.
    pub ty: String,
    /// The value is read from a file.
    pub file_system: bool,
}

pub struct OptionTypeInfoView {
    pub name: Seq<char>,
    pub field_name: Seq<char>,
    pub optional: bool,
    pub ty: Seq<char>,
    pub file_system: bool,
}

impl View for OptionTypeInfo {
    type V = OptionTypeInfoView;

    open spec fn view(&self) -> OptionTypeInfoView {
        OptionTypeInfoView {
            name: self.name@,
            field_name: self.field_name@,
            optional: self.optional,
            ty: self.ty@,
            file_system: self.file_system,
        }
    }
}

/// What `str::to_lowercase` gives for a text.
pub uninterp spec fn lowercase(text: Seq<char>) -> Seq<char>;

/// Every character of the text is one of ASCII.
pub open spec fn is_ascii_text(text: Seq<char>) -> bool {
    forall|i: int| 0 <= i < text.len() ==> (#[trigger] text[i]) <= '\x7f'
}

/// The character, with a capital letter of ASCII replaced by its small one.
pub open spec fn ascii_lower(c: char) -> char {
    if 'A' <= c && c <= 'Z' {
        ((c as u8) + 32u8) as char
    } else {
        c
    }
}

/// The text, with each capital letter of ASCII replaced by its small one.
pub open spec fn ascii_lowercase(text: Seq<char>) -> Seq<char> {
    Seq::new(text.len(), |i: int| ascii_lower(text[i]))
}

/// The name of the field of the option `name`: the name in lowercase.
pub open spec fn field_name_of(name: Seq<char>) -> Seq<char> {
    if is_ascii_text(name) {
        ascii_lowercase(name)
    } else {
        lowercase(name)
    }
}

/// `str::to_lowercase`: the text with every character that has a lowercase
/// form replaced by it, as Unicode defines that form. Of a text of ASCII
/// characters this is the text with the letters `A` to `Z` replaced by `a`
/// to `z` and every other character kept.
#[verifier::external_body]
fn to_lowercase(text: &str) -> (lower: String)
    ensures
        lower@ == lowercase(text@),
        is_ascii_text(text@) ==> lower@ == ascii_lowercase(text@),
{
    text.to_lowercase()
}

/// The option is read from a file.
pub open spec fn reads_file(transport: Option<AgentOptionTransport>) -> bool {
    transport == Some(AgentOptionTransport::Fs)
}

impl OptionTypeInfo {
    /// The info of an option of a single value, with the name of its field
    /// given. The field may stay empty where the option has no default and
    /// is not required.
    pub fn with_field_name<T>(
        name: String,
        field_name: String,
        default: Option<T>,
        required: Option<bool>,
        ty: &str,
        transport: Option<AgentOptionTransport>,
    ) -> (info: Self)
        ensures
            info@ == (OptionTypeInfoView {
                name: name@,
                field_name: field_name@,
                optional: default is None && required != Some(true),
                ty: ty@,
                file_system: reads_file(transport),
            }),
    {
        let required = match required {
            Some(r) => r,
            None => false,
        };
        Self {
            name,
            field_name,
            optional: default.is_none() && !required,
            ty: ty.to_owned(),
            file_system: match transport {
                Some(AgentOptionTransport::Fs) => true,
                _ => false,
            },
        }
    }

    /// The info of an option of a single value. Its field is named by the
    /// name of the option in lowercase.
    pub fn new<T>(
        name: String,
        default: Option<T>,
        required: Option<bool>,
        ty: &str,
        transport: Option<AgentOptionTransport>,
    ) -> (info: Self)
        ensures
            info@ == (OptionTypeInfoView {
                name: name@,
                field_name: field_name_of(name@),
                optional: default is None && required != Some(true),
                ty: ty@,
                file_system: reads_file(transport),
            }),
    {
        let field_name = to_lowercase(name.as_str());
        Self::with_field_name(name, field_name, default, required, ty, transport)
    }

    /// The info of an option of a list of values, with the name of its field
    /// given. The field is never empty, and its type is a vector.
    pub fn list_with_field_name(
        name: String,
        field_name: String,
        ty: &str,
        transport: Option<AgentOptionTransport>,
    ) -> (info: Self)
        ensures
            info@ == (OptionTypeInfoView {
                name: name@,
                field_name: field_name@,
                optional: false,
                ty: "Vec<"@ + ty@ + ">"@,
                file_system: reads_file(transport),
            }),
    {
        let mut list_type = String::from_str("Vec<");
        list_type.append(ty);
        list_type.append(">");
        Self {
            name,
            field_name,
            optional: false,
            ty: list_type,
            file_system: match transport {
                Some(AgentOptionTransport::Fs) => true,
                _ => false,
            },
        }
    }

    /// The info of an option of a list of values. Its field is named by the
    /// name of the option in lowercase.
    pub fn new_list(name: String, ty: &str, transport: Option<AgentOptionTransport>) -> (info:
        Self)
        ensures
            info@ == (OptionTypeInfoView {
                name: name@,
                field_name: field_name_of(name@),
                optional: false,
                ty: "Vec<"@ + ty@ + ">"@,
                file_system: reads_file(transport),
            }),
    {
        let field_name = to_lowercase(name.as_str());
        Self::list_with_field_name(name, field_name, ty, transport)
    }
}

/// The info of the option `name` with the definition `option`.
pub open spec fn info_of(name: Seq<char>, option: AgentOption) -> OptionTypeInfoView {
    OptionTypeInfoView {
        name,
        field_name: field_name_of(name),
        optional: !option.kind.spec_is_list() && !option.has_default && option.required != Some(
            true,
        ),
        ty: if option.kind.spec_is_list() {
            "Vec<"@ + option.kind.spec_value_type() + ">"@
        } else {
            option.kind.spec_value_type()
        },
        file_system: reads_file(option.transport),
    }
}

/// The info of one option.
pub fn option_info(name: &String, option: &AgentOption) -> (info: OptionTypeInfo)
    ensures
        info@ == info_of(name@, *option),
{
    if option.kind.is_list() {
        OptionTypeInfo::new_list(name.clone(), option.kind.value_type(), option.transport)
    } else {
        let default: Option<bool> = if option.has_default {
            Some(true)
        } else {
            None
        };
        OptionTypeInfo::new(
            name.clone(),
            default,
            option.required,
            option.kind.value_type(),
            option.transport,
        )
    }
}

/// A letter of the ASCII alphabet or an underscore.
pub open spec fn starts_identifier(c: char) -> bool {
    ('a' <= c && c <= 'z') || ('A' <= c && c <= 'Z') || c == '_'
}

/// A letter or a digit of ASCII, or an underscore.
pub open spec fn continues_identifier(c: char) -> bool {
    starts_identifier(c) || ('0' <= c && c <= '9')
}

/// The text has the form of an identifier made of ASCII characters.
pub open spec fn is_identifier(text: Seq<char>) -> bool {
    &&& text.len() > 0
    &&& starts_identifier(text[0])
    &&& forall|i: int| 0 < i < text.len() ==> continues_identifier(#[trigger] text[i])
}

/// Whether the text has the form of an identifier made of ASCII characters.
pub fn identifier(text: &str) -> (valid: bool)
    ensures
        valid == is_identifier(text@),
{
    let n = text.unicode_len();
    if n == 0 {
        return false;
    }
    let first = text.get_char(0);
    if !((first >= 'a' && first <= 'z') || (first >= 'A' && first <= 'Z') || first == '_') {
        return false;
    }
    let mut i: usize = 1;
    while i < n
        invariant
            1 <= i <= n,
            n == text@.len(),
            forall|j: int| 0 < j < i ==> continues_identifier(#[trigger] text@[j]),
        decreases n - i,
    {
        let c = text.get_char(i);
        if !((c >= 'a' && c <= 'z') || (c >= 'A' && c <= 'Z') || c == '_' || (c >= '0' && c
            <= '9')) {
            return false;
        }
        i += 1;
    }
    true
}

/// The text begins with `Vec`.
pub open spec fn is_vector_type(text: Seq<char>) -> bool {
    text.len() >= 3 && text[0] == 'V' && text[1] == 'e' && text[2] == 'c'
}

/// Whether the text begins with `Vec`.
pub fn vector_type(text: &str) -> (vector: bool)
    ensures
        vector == is_vector_type(text@),
{
    text.unicode_len() >= 3 && text.get_char(0) == 'V' && text.get_char(1) == 'e' && text.get_char(
        2,
    ) == 'c'
}

impl OptionTypeInfoView {
    /// The info can be generated: the name of the option and the name of
    /// its field have the form of identifiers.
    pub open spec fn valid(self) -> bool {
        is_identifier(self.name) && is_identifier(self.field_name)
    }

    /// The type of the field.
    pub open spec fn field_type(self) -> Seq<char> {
        if self.optional {
            "Option<"@ + self.ty + ">"@
        } else {
            self.ty
        }
    }

    /// The declaration of the field.
    pub open spec fn field(self) -> Seq<char> {
        self.field_name + ": "@ + self.field_type() + ",\n"@
    }

    /// The call that reads the option: of the function for lists where the
    /// type is a vector, with the name of the option and whether a file is
    /// read.
    pub open spec fn read(self) -> Seq<char> {
        "::coral_rs::codegen::__private::"@ + (if is_vector_type(self.ty) {
            "get_options"@
        } else {
            "get_option"@
        }) + "(\""@ + self.name + "\", "@ + (if self.file_system {
            "true"@
        } else {
            "false"@
        }) + ")"@
    }

    /// The initialisation of the field: an option that is missing leaves an
    /// optional field empty and fails a field that is not.
    pub open spec fn initializer(self) -> Seq<char> {
        if self.optional {
            self.field_name + ": match "@ + self.read()
                + " {\nOk(x) => Some(x),\nErr(::coral_rs::codegen::__private::Error::MissingOption(_)) => None,\nErr(e) => return Err(e),\n},\n"@
        } else {
            self.field_name + ": "@ + self.read() + "?,\n"@
        }
    }
}

/// An option can be generated exactly where its name has the form of an
/// identifier of ASCII characters; its field is then named by the name with
/// its capital letters made small.
pub proof fn law_option_is_generated_for_identifier(name: Seq<char>, option: AgentOption)
    ensures
        info_of(name, option).valid() <==> is_identifier(name),
        is_identifier(name) ==> info_of(name, option).field_name == ascii_lowercase(name),
{
    if is_identifier(name) {
        assert forall|i: int| 0 <= i < name.len() implies (#[trigger] name[i]) <= '\x7f' by {
            if i > 0 {
                assert(continues_identifier(name[i]));
            }
        }
        let field = ascii_lowercase(name);
        assert(starts_identifier(field[0]));
        assert forall|i: int| 0 < i < field.len() implies continues_identifier(
            #[trigger] field[i],
        ) by {
            assert(continues_identifier(name[i]));
        }
    }
}

pub open spec fn infos_view(infos: Seq<OptionTypeInfo>) -> Seq<OptionTypeInfoView> {
    infos.map_values(|i: OptionTypeInfo| i@)
}

/// The declarations of the first `n` fields.
pub open spec fn fields(infos: Seq<OptionTypeInfoView>, n: nat) -> Seq<char>
    decreases n,
{
    if n == 0 {
        Seq::empty()
    } else {
        fields(infos, (n - 1) as nat) + infos[n - 1].field()
    }
}

/// The initialisations of the first `n` fields.
pub open spec fn initializers(infos: Seq<OptionTypeInfoView>, n: nat) -> Seq<char>
    decreases n,
{
    if n == 0 {
        Seq::empty()
    } else {
        initializers(infos, (n - 1) as nat) + infos[n - 1].initializer()
    }
}

/// The source text for the options: a structure with one field per option,
/// and a function that reads them all.
pub open spec fn rendered(infos: Seq<OptionTypeInfoView>) -> Seq<char> {
    "#[derive(Debug, Clone)]\npub struct Options {\n"@ + fields(infos, infos.len())
        + "}\nimpl Options {\npub fn parse() -> Result<Self, ::coral_rs::codegen::__private::Error> {\nOk(Self {\n"@
        + initializers(infos, infos.len()) + "})\n}\n}\n"@
}

impl OptionTypeInfo {
    /// Whether the info can be generated.
    pub fn valid(&self) -> (valid: bool)
        ensures
            valid == self@.valid(),
    {
        identifier(self.name.as_str()) && identifier(self.field_name.as_str())
    }

    /// The declaration of the field.
    pub fn field(&self) -> (text: String)
        ensures
            text@ == self@.field(),
    {
        let mut text = self.field_name.clone();
        text.append(": ");
        if self.optional {
            text.append("Option<");
            text.append(self.ty.as_str());
            text.append(">");
            proof {
                assert(self.field_name@ + ": "@ + "Option<"@ + self.ty@ + ">"@
                    =~= self.field_name@ + ": "@ + ("Option<"@ + self.ty@ + ">"@));
            }
        } else {
            text.append(self.ty.as_str());
        }
        text.append(",\n");
        text
    }

    /// The call that reads the option.
    pub fn read(&self) -> (text: String)
        ensures
            text@ == self@.read(),
    {
        let mut text = String::from_str("::coral_rs::codegen::__private::");
        if vector_type(self.ty.as_str()) {
            text.append("get_options");
        } else {
            text.append("get_option");
        }
        text.append("(\"");
        text.append(self.name.as_str());
        text.append("\", ");
        if self.file_system {
            text.append("true");
        } else {
            text.append("false");
        }
        text.append(")");
        text
    }

    /// The initialisation of the field.
    pub fn initializer(&self) -> (text: String)
        ensures
            text@ == self@.initializer(),
    {
        let mut text = self.field_name.clone();
        let read = self.read();
        if self.optional {
            text.append(": match ");
            text.append(read.as_str());
            text.append(
                " {\nOk(x) => Some(x),\nErr(::coral_rs::codegen::__private::Error::MissingOption(_)) => None,\nErr(e) => return Err(e),\n},\n",
            );
        } else {
            text.append(": ");
            text.append(read.as_str());
            text.append("?,\n");
        }
        text
    }
}

/// The source text for the options with the infos `infos`.
pub fn render(infos: &Vec<OptionTypeInfo>) -> (text: String)
    ensures
        text@ == rendered(infos_view(infos@)),
{
    let ghost views = infos_view(infos@);
    let ghost head = "#[derive(Debug, Clone)]\npub struct Options {\n"@;
    let mut text = String::from_str("#[derive(Debug, Clone)]\npub struct Options {\n");
    let mut i: usize = 0;
    proof {
        assert(text@ =~= head + fields(views, 0));
    }
    while i < infos.len()
        invariant
            i <= infos.len(),
            views == infos_view(infos@),
            text@ == head + fields(views, i as nat),
        decreases infos.len() - i,
    {
        let line = infos[i].field();
        proof {
            assert((head + fields(views, i as nat)) + line@ =~= head + fields(
                views,
                (i + 1) as nat,
            ));
        }
        text.append(line.as_str());
        i += 1;
    }
    let ghost top = text@
        + "}\nimpl Options {\npub fn parse() -> Result<Self, ::coral_rs::codegen::__private::Error> {\nOk(Self {\n"@;
    text.append(
        "}\nimpl Options {\npub fn parse() -> Result<Self, ::coral_rs::codegen::__private::Error> {\nOk(Self {\n",
    );
    let mut j: usize = 0;
    proof {
        assert(text@ =~= top + initializers(views, 0));
    }
    while j < infos.len()
        invariant
            j <= infos.len(),
            views == infos_view(infos@),
            text@ == top + initializers(views, j as nat),
        decreases infos.len() - j,
    {
        let line = infos[j].initializer();
        proof {
            assert((top + initializers(views, j as nat)) + line@ =~= top + initializers(
                views,
                (j + 1) as nat,
            ));
        }
        text.append(line.as_str());
        j += 1;
    }
    text.append("})\n}\n}\n");
    text
}

/// What parsing a text as a source file and printing the file in the
/// canonical layout gives: the printed text, or nothing where the text is
/// no source file.
pub uninterp spec fn formatted_source(text: Seq<char>) -> Option<Seq<char>>;

/// The infos of the first `n` options of a definition.
pub open spec fn definition_infos(options: Seq<(String, AgentOption)>, n: nat) -> Seq<
    OptionTypeInfoView,
> {
    Seq::new(n, |i: int| info_of(options[i].0@, options[i].1))
}

/// Every one of the infos can be generated.
pub open spec fn all_valid(infos: Seq<OptionTypeInfoView>) -> bool {
    forall|i: int| 0 <= i < infos.len() ==> (#[trigger] infos[i]).valid()
}

/// The text is the source text for the options of some definition, each of
/// which can be generated: a structure of fields whose names are
/// identifiers and whose types are among those of the kinds of options, and
/// a function made of calls, matches and returns.
pub open spec fn renders_definition(text: Seq<char>) -> bool {
    exists|options: Seq<(String, AgentOption)>|
        all_valid(#[trigger] definition_infos(options, options.len())) && text == rendered(
            definition_infos(options, options.len()),
        )
}

/// `prettyplease::unparse` of the file that `syn::parse_file` makes of the
/// text; nothing where `syn::parse_file` fails. The printer stops the
/// program on an item, a type or an expression that the parser keeps as
/// unparsed tokens; the source text for a definition holds none, and no
/// other text is admitted.
#[verifier::external_body]
fn unparse(text: &str) -> (pretty: Option<String>)
    requires
        renders_definition(text@),
    ensures
        crate::message::opt_view(pretty) == formatted_source(text@),
{
    match syn::parse_file(text) {
        Ok(file) => Some(prettyplease::unparse(&file)),
        Err(_) => None,
    }
}

/// The generated code for a definition: the formatted source for the infos
/// of its options, where no name occurs twice, every option can be
/// generated and the source is one.
pub open spec fn generated(options: Seq<(String, AgentOption)>) -> Option<Seq<char>> {
    let infos = definition_infos(options, options.len());
    if distinct_names(options) && all_valid(infos) {
        formatted_source(rendered(infos))
    } else {
        None
    }
}

/// Generates the code that holds and reads the options of an agent: a
/// structure `Options` with one field per option, named by the option in
/// lowercase, and a function `parse` that fills it. There is no code where
/// a name occurs twice, where the name of an option has not the form of an
/// identifier of ASCII characters, or where the text made of the options is
/// no source file.
pub fn generate_option_structure(definition: &AgentDefinition) -> (code: Option<String>)
    ensures
        crate::message::opt_view(code) == generated(definition.options@),
{
    if !definition.names_are_distinct() {
        return None;
    }
    let mut infos: Vec<OptionTypeInfo> = Vec::new();
    let mut i: usize = 0;
    while i < definition.options.len()
        invariant
            i <= definition.options.len(),
            definition.wf(),
            infos_view(infos@) == definition_infos(definition.options@, i as nat),
            forall|k: int| 0 <= k < i ==> (#[trigger] infos_view(infos@)[k]).valid(),
        decreases definition.options.len() - i,
    {
        let entry = &definition.options[i];
        let info = option_info(&entry.0, &entry.1);
        proof {
            assert(*entry == definition.options@[i as int]);
            assert(info@ == info_of(definition.options@[i as int].0@, definition.options@[i as int].1));
        }
        if !info.valid() {
            proof {
                let all = definition_infos(definition.options@, definition.options@.len());
                assert(all[i as int] == info@);
            }
            return None;
        }
        proof {
            let before = infos_view(infos@);
            assert(before.len() == i);
            assert(infos_view(infos@.push(info)) =~= before.push(info@));
            assert(before.push(info@) =~= definition_infos(definition.options@, (i + 1) as nat));
        }
        infos.push(info);
        i += 1;
    }
    let text = render(&infos);
    proof {
        let all = definition_infos(definition.options@, definition.options@.len());
        assert(all == infos_view(infos@));
        assert(all_valid(all));
        assert(renders_definition(text@));
    }
    unparse(text.as_str())
}

} // verus!
