//! The declaration of a packet: the arguments of its attribute, and the names
//! that its generated code carries.
//!
//! A packet type is declared with a direction and, optionally, a name:
//! `C2S`, `S2C`, or a list of `key = value` pairs with the keys `type` and
//! `name`. The arguments are Rust tokens; `syn` reads them, and the rules of
//! the attribute are applied to what it found.

use vstd::prelude::*;
use vstd::string::StringExecFns;
use crate::text::str_eq;
use syn::parse::Parser;
use syn::punctuated::Punctuated;
use syn::token::Comma;
use syn::{Expr, ExprLit, Lit};

verus! {

/// The direction in which a packet travels.
#[derive(Clone, Copy, Debug, PartialEq, Eq, Structural)]
pub enum PacketType {
    /// From the client to the server.
    C2S,
    /// From the server to the client.
    S2C,
}

/// Configuration for the packet.
#[derive(Clone, Debug, PartialEq, Eq)]
pub struct Config {
    pub packet_type: PacketType,
    pub name: Option<String>,
}

/// A `Config` as plain values.
pub struct ConfigView {
    pub packet_type: PacketType,
    pub name: Option<Seq<char>>,
}

impl View for Config {
    type V = ConfigView;

    open spec fn view(&self) -> ConfigView {
        ConfigView {
            packet_type: self.packet_type,
            name: match self.name {
                Some(n) => Some(n@),
                None => None,
            },
        }
    }
}

/// Why the arguments of a packet attribute were refused.
#[derive(Clone, Copy, Debug, PartialEq, Eq, Structural)]
pub enum ConfigErrorKind {
    /// A direction was expected, and the word is neither `C2S` nor `S2C`.
    ExpectedDirection,
    /// A key, or the value of `type`, is not a path.
    ExpectedIdentifier,
    /// An argument is not of the form `key = value`.
    ExpectedKeyValue,
    /// The value of `name` is not a string literal.
    ExpectedStringLiteral,
    /// A key is neither `type` nor `name`.
    UnknownKey,
    /// No argument gives the `type`.
    MissingType,
    /// The arguments are not a comma-separated list of expressions.
    Syntax,
}

/// A refusal of the arguments of a packet attribute, with the message to show.
#[derive(Clone, Debug, PartialEq, Eq)]
pub struct ConfigError {
    pub kind: ConfigErrorKind,
    pub message: String,
}

/// One side of an argument of the form `key = value`.
#[derive(Clone, Debug, PartialEq, Eq)]
pub enum Operand {
    /// A path, given by the identifier of its last segment.
    Path(String),
    /// A string literal, given by its value.
    Str(String),
    /// Any other expression.
    Other,
}

/// An `Operand` as plain values.
pub enum OperandView {
    Path(Seq<char>),
    Str(Seq<char>),
    Other,
}

impl View for Operand {
    type V = OperandView;

    open spec fn view(&self) -> OperandView {
        match self {
            Operand::Path(s) => OperandView::Path(s@),
            Operand::Str(s) => OperandView::Str(s@),
            Operand::Other => OperandView::Other,
        }
    }
}

/// One argument of a packet attribute, as far as the rules read it.
#[derive(Clone, Debug, PartialEq, Eq)]
pub enum Arg {
    /// `key = value`
    Assign(Operand, Operand),
    /// Any other expression.
    Other,
}

/// An `Arg` as plain values.
pub enum ArgView {
    Assign(OperandView, OperandView),
    Other,
}

impl View for Arg {
    type V = ArgView;

    open spec fn view(&self) -> ArgView {
        match self {
            Arg::Assign(key, value) => ArgView::Assign(key@, value@),
            Arg::Other => ArgView::Other,
        }
    }
}

/// The arguments `args` as plain values.
pub open spec fn args_view(args: Seq<Arg>) -> Seq<ArgView> {
    args.map_values(|a: Arg| a@)
}

/// The identifier that `input` consists of, where `syn` parses all of `input`
/// as one identifier: what `syn::parse_str::<syn::Ident>` returns for it.
pub uninterp spec fn lone_ident(input: Seq<char>) -> Option<Seq<char>>;

/// The arguments that `input` consists of, where `syn` parses all of `input` as
/// expressions separated by commas, or else the message of its error: what
/// `Punctuated::<Expr, Comma>::parse_terminated` returns for it.
pub uninterp spec fn parsed_args(input: Seq<char>) -> Result<Seq<ArgView>, Seq<char>>;

/// The lowercase equivalent of `s`: what `str::to_lowercase` returns for it.
pub uninterp spec fn lowercase_of(s: Seq<char>) -> Seq<char>;

/// `syn::parse_str::<syn::Ident>` succeeds where the whole input is one
/// identifier that is no keyword. The identifier is handed out as text. The
/// result depends on the input alone, which is all that is claimed.
#[verifier::external_body]
fn parse_lone_ident(input: &str) -> (word: Option<String>)
    ensures
        (match word {
            Some(w) => lone_ident(input@) == Some(w@),
            None => lone_ident(input@) is None,
        }),
{
    syn::parse_str::<syn::Ident>(input).ok().map(|ident| ident.to_string())
}

/// `Punctuated::<Expr, Comma>::parse_terminated`, applied to the whole input,
/// parses zero or more expressions separated by commas. Each expression is
/// handed out as an `Arg`: an assignment with its two sides, a side being a
/// path (by the identifier of its last segment), a string literal (by its
/// value) or something else. An error is handed out as its message. The result
/// depends on the input alone, which is all that is claimed.
#[verifier::external_body]
fn parse_arg_list(input: &str) -> (args: Result<Vec<Arg>, String>)
    ensures
        (match args {
            Ok(v) => parsed_args(input@) == Ok::<Seq<ArgView>, Seq<char>>(args_view(v@)),
            Err(message) => parsed_args(input@) == Err::<Seq<ArgView>, Seq<char>>(message@),
        }),
{
    let operand = |e: &Expr| match e {
        Expr::Path(p) => Operand::Path(p.path.segments.last().unwrap().ident.to_string()),
        Expr::Lit(ExprLit { lit: Lit::Str(s), .. }) => Operand::Str(s.value()),
        _ => Operand::Other,
    };
    let exprs = Punctuated::<Expr, Comma>::parse_terminated
        .parse_str(input)
        .map_err(|e| e.to_string())?;
    Ok(exprs.iter().map(|e| match e {
        Expr::Assign(a) => Arg::Assign(operand(&a.left), operand(&a.right)),
        _ => Arg::Other,
    }).collect())
}

/// `str::to_lowercase` returns the lowercase equivalent of a string, as Unicode
/// defines it. The result depends on the string alone, which is all that is
/// claimed.
#[verifier::external_body]
fn to_lowercase(s: &str) -> (lower: String)
    ensures
        lower@ == lowercase_of(s@),
{
    s.to_lowercase()
}

/// The direction that the word `word` names.
pub open spec fn direction_of(word: Seq<char>) -> Option<PacketType> {
    if word == "C2S"@ {
        Some(PacketType::C2S)
    } else if word == "S2C"@ {
        Some(PacketType::S2C)
    } else {
        None
    }
}

/// The message that goes with a refusal of the kind `kind`, for every kind but
/// `Syntax`, whose message is that of the parser.
pub open spec fn message_of(kind: ConfigErrorKind) -> Seq<char> {
    match kind {
        ConfigErrorKind::ExpectedDirection => "Expected 'C2S' or 'S2C'"@,
        ConfigErrorKind::ExpectedIdentifier => "Expected identifier"@,
        ConfigErrorKind::ExpectedKeyValue => "Expected key-value pair"@,
        ConfigErrorKind::ExpectedStringLiteral => "Expected string literal"@,
        ConfigErrorKind::UnknownKey => "Unknown key"@,
        ConfigErrorKind::MissingType => "Expected 'type'"@,
        ConfigErrorKind::Syntax => Seq::<char>::empty(),
    }
}

/// What the arguments read so far have set.
pub struct Settings {
    pub packet_type: Option<PacketType>,
    pub name: Option<Seq<char>>,
}

/// The settings after one more argument, or why the argument is refused. The
/// key `type` takes a path whose last identifier is a direction, the key `name`
/// takes a string literal, and there is no other key.
pub open spec fn apply_arg(settings: Settings, arg: ArgView) -> Result<Settings, ConfigErrorKind> {
    match arg {
        ArgView::Other => Err(ConfigErrorKind::ExpectedKeyValue),
        ArgView::Assign(OperandView::Path(key), value) => {
            if key == "type"@ {
                match value {
                    OperandView::Path(word) => match direction_of(word) {
                        Some(t) => Ok(Settings { packet_type: Some(t), name: settings.name }),
                        None => Err(ConfigErrorKind::ExpectedDirection),
                    },
                    _ => Err(ConfigErrorKind::ExpectedIdentifier),
                }
            } else if key == "name"@ {
                match value {
                    OperandView::Str(s) => Ok(
                        Settings { packet_type: settings.packet_type, name: Some(s) },
                    ),
                    _ => Err(ConfigErrorKind::ExpectedStringLiteral),
                }
            } else {
                Err(ConfigErrorKind::UnknownKey)
            }
        },
        ArgView::Assign(_, _) => Err(ConfigErrorKind::ExpectedIdentifier),
    }
}

/// The settings after the arguments `args`, read from left to right: a later
/// argument replaces what an earlier one set, and the first argument that is
/// refused decides the error.
pub open spec fn apply_args(settings: Settings, args: Seq<ArgView>) -> Result<
    Settings,
    ConfigErrorKind,
>
    decreases args.len(),
{
    if args.len() == 0 {
        Ok(settings)
    } else {
        match apply_arg(settings, args[0]) {
            Ok(next) => apply_args(next, args.drop_first()),
            Err(kind) => Err(kind),
        }
    }
}

/// The configuration that a list of `key = value` arguments gives. The `type`
/// must have been set.
pub open spec fn config_from_args(args: Seq<ArgView>) -> Result<ConfigView, ConfigErrorKind> {
    match apply_args(Settings { packet_type: None, name: None }, args) {
        Err(kind) => Err(kind),
        Ok(settings) => match settings.packet_type {
            None => Err(ConfigErrorKind::MissingType),
            Some(t) => Ok(ConfigView { packet_type: t, name: settings.name }),
        },
    }
}

/// The configuration that a lone identifier gives: it must be a direction.
pub open spec fn config_from_ident(word: Seq<char>) -> Result<ConfigView, ConfigErrorKind> {
    match direction_of(word) {
        Some(t) => Ok(ConfigView { packet_type: t, name: None }),
        None => Err(ConfigErrorKind::ExpectedDirection),
    }
}

/// The configuration that the arguments of a packet attribute give, from what
/// the parser found in them: a lone identifier is read as a direction, and
/// anything else as a list of `key = value` arguments.
pub open spec fn config_from_source(
    lone: Option<Seq<char>>,
    args: Result<Seq<ArgView>, Seq<char>>,
) -> Result<ConfigView, ConfigErrorKind> {
    match lone {
        Some(word) => config_from_ident(word),
        None => match args {
            Ok(args) => config_from_args(args),
            Err(_) => Err(ConfigErrorKind::Syntax),
        },
    }
}

/// Whether `r` is the outcome `expected`, with the message that goes with the
/// kind where it is an error.
pub open spec fn is_outcome(
    r: Result<Config, ConfigError>,
    expected: Result<ConfigView, ConfigErrorKind>,
) -> bool {
    match r {
        Ok(config) => expected == Ok::<ConfigView, ConfigErrorKind>(config@),
        Err(error) => expected == Err::<ConfigView, ConfigErrorKind>(error.kind) && (error.kind
            != ConfigErrorKind::Syntax ==> error.message@ == message_of(error.kind)),
    }
}

impl ConfigError {
    /// The refusal of the kind `kind`, with the message that goes with it.
    pub fn of_kind(kind: ConfigErrorKind) -> (error: ConfigError)
        ensures
            error.kind == kind,
            error.message@ == message_of(kind),
    {
        let message = match kind {
            ConfigErrorKind::ExpectedDirection => "Expected 'C2S' or 'S2C'".to_owned(),
            ConfigErrorKind::ExpectedIdentifier => "Expected identifier".to_owned(),
            ConfigErrorKind::ExpectedKeyValue => "Expected key-value pair".to_owned(),
            ConfigErrorKind::ExpectedStringLiteral => "Expected string literal".to_owned(),
            ConfigErrorKind::UnknownKey => "Unknown key".to_owned(),
            ConfigErrorKind::MissingType => "Expected 'type'".to_owned(),
            ConfigErrorKind::Syntax => String::new(),
        };
        ConfigError { kind, message }
    }
}

impl PacketType {
    /// The direction that `word` names: `C2S` or `S2C`.
    pub fn from_word(word: &str) -> (t: Option<PacketType>)
        ensures
            t == direction_of(word@),
    {
        if str_eq(word, "C2S") {
            Some(PacketType::C2S)
        } else if str_eq(word, "S2C") {
            Some(PacketType::S2C)
        } else {
            None
        }
    }
}

impl Config {
    /// The configuration that a lone identifier gives.
    pub fn from_ident(word: &str) -> (r: Result<Config, ConfigError>)
        ensures
            is_outcome(r, config_from_ident(word@)),
            r matches Err(error) ==> error.kind != ConfigErrorKind::Syntax,
    {
        match PacketType::from_word(word) {
            Some(packet_type) => Ok(Config { packet_type, name: None }),
            None => Err(ConfigError::of_kind(ConfigErrorKind::ExpectedDirection)),
        }
    }

    /// The configuration that a list of `key = value` arguments gives.
    pub fn from_args(args: &Vec<Arg>) -> (r: Result<Config, ConfigError>)
        ensures
            is_outcome(r, config_from_args(args_view(args@))),
            r matches Err(error) ==> error.kind != ConfigErrorKind::Syntax,
    {
        let ghost all = args_view(args@);
        let ghost none = Settings { packet_type: None, name: None };
        let mut packet_type: Option<PacketType> = None;
        let mut name: Option<String> = None;
        let mut i: usize = 0;
        assert(all.skip(0) =~= all);
        while i < args.len()
            invariant
                i <= args.len(),
                all == args_view(args@),
                none == (Settings { packet_type: None, name: None }),
                apply_args(none, all) == apply_args(
                    Settings {
                        packet_type,
                        name: match name {
                            Some(n) => Some(n@),
                            None => None,
                        },
                    },
                    all.skip(i as int),
                ),
            decreases args.len() - i,
        {
            assert(all.skip(i as int).drop_first() =~= all.skip(i + 1));
            match &args[i] {
                Arg::Other => {
                    return Err(ConfigError::of_kind(ConfigErrorKind::ExpectedKeyValue));
                },
                Arg::Assign(Operand::Path(key), value) => {
                    if str_eq(key.as_str(), "type") {
                        match value {
                            Operand::Path(word) => match PacketType::from_word(word.as_str()) {
                                Some(t) => {
                                    packet_type = Some(t);
                                },
                                None => {
                                    return Err(
                                        ConfigError::of_kind(ConfigErrorKind::ExpectedDirection),
                                    );
                                },
                            },
                            _ => {
                                return Err(
                                    ConfigError::of_kind(ConfigErrorKind::ExpectedIdentifier),
                                );
                            },
                        }
                    } else if str_eq(key.as_str(), "name") {
                        match value {
                            Operand::Str(s) => {
                                name = Some(s.clone());
                            },
                            _ => {
                                return Err(
                                    ConfigError::of_kind(ConfigErrorKind::ExpectedStringLiteral),
                                );
                            },
                        }
                    } else {
                        return Err(ConfigError::of_kind(ConfigErrorKind::UnknownKey));
                    }
                },
                Arg::Assign(_, _) => {
                    return Err(ConfigError::of_kind(ConfigErrorKind::ExpectedIdentifier));
                },
            }
            i += 1;
        }
        match packet_type {
            None => Err(ConfigError::of_kind(ConfigErrorKind::MissingType)),
            Some(packet_type) => Ok(Config { packet_type, name }),
        }
    }

    /// Reads the arguments of a packet attribute: `C2S`, `S2C`, or a list of
    /// `key = value` pairs in which `type` is a direction and `name` a string
    /// literal. Where the arguments are not even a list of expressions, the
    /// error is of the kind `Syntax` and carries the parser's message.
    pub fn parse(input: &str) -> (r: Result<Config, ConfigError>)
        ensures
            is_outcome(r, config_from_source(lone_ident(input@), parsed_args(input@))),
            r matches Err(error) ==> (error.kind == ConfigErrorKind::Syntax ==> parsed_args(input@)
                == Err::<Seq<ArgView>, Seq<char>>(error.message@)),
    {
        match parse_lone_ident(input) {
            Some(word) => Config::from_ident(word.as_str()),
            None => match parse_arg_list(input) {
                Ok(args) => Config::from_args(&args),
                Err(message) => Err(ConfigError { kind: ConfigErrorKind::Syntax, message }),
            },
        }
    }

    /// The direction as text: `C2S` or `S2C`.
    pub fn to_string(&self) -> (text: String)
        ensures
            text@ == direction_text(self.packet_type),
    {
        match self.packet_type {
            PacketType::C2S => "C2S".to_owned(),
            PacketType::S2C => "S2C".to_owned(),
        }
    }
}

/// The word for a direction.
pub open spec fn direction_text(packet_type: PacketType) -> Seq<char> {
    match packet_type {
        PacketType::C2S => "C2S"@,
        PacketType::S2C => "S2C"@,
    }
}

/// What is appended to the name of a packet's type to name the generated type.
pub open spec fn type_suffix(packet_type: PacketType) -> Seq<char> {
    match packet_type {
        PacketType::C2S => "_C2S"@,
        PacketType::S2C => "_S2C"@,
    }
}

/// What the name of the generated method begins with: a packet from the client
/// gets a method that registers a handler, one to the client a method that
/// emits it.
pub open spec fn method_prefix(packet_type: PacketType) -> Seq<char> {
    match packet_type {
        PacketType::C2S => "on_"@,
        PacketType::S2C => "emit_"@,
    }
}

/// The name under which a packet travels: the configured name, or else the
/// name of its type.
pub open spec fn packet_name(config: ConfigView, ident: Seq<char>) -> Seq<char> {
    match config.name {
        Some(name) => name,
        None => ident,
    }
}

/// The names that the code generated for one packet declaration carries.
#[derive(Clone, Debug, PartialEq, Eq)]
pub struct Expansion {
    /// The direction, which decides whether the type is decoded or encoded and
    /// whether the method registers a handler or emits.
    pub packet_type: PacketType,
    /// The name of the generated type.
    pub struct_name: String,
    /// The name under which the packet travels.
    pub packet_name: String,
    /// The name of the generated method of the server.
    pub method_name: String,
}

impl Expansion {
    /// The names for the declaration of the type `ident` under `config`: the
    /// type is named by `ident` and the direction, the packet by the configured
    /// name or else by `ident`, and the method by `on_` or `emit_` and the
    /// packet's name in lowercase.
    pub fn plan(config: &Config, ident: &str) -> (e: Expansion)
        ensures
            e.packet_type == config.packet_type,
            e.struct_name@ == ident@ + type_suffix(config.packet_type),
            e.packet_name@ == packet_name(config@, ident@),
            e.method_name@ == method_prefix(config.packet_type) + lowercase_of(
                packet_name(config@, ident@),
            ),
    {
        let struct_name = ident.to_owned().concat(
            match config.packet_type {
                PacketType::C2S => "_C2S",
                PacketType::S2C => "_S2C",
            },
        );
        let packet_name = match &config.name {
            Some(name) => name.clone(),
            None => ident.to_owned(),
        };
        let lower = to_lowercase(packet_name.as_str());
        let method_name = match config.packet_type {
            PacketType::C2S => "on_".to_owned(),
            PacketType::S2C => "emit_".to_owned(),
        }.concat(lower.as_str());
        Expansion { packet_type: config.packet_type, struct_name, packet_name, method_name }
    }
}

} // verus!
