//! Where secrets come from. They never stand on the command line themselves
//! unless the user puts them there.

use crate::render::{env_prefix, env_prefix_for};
use crate::sanitize::{trim_line_end, trim_one_newline, without_line_end, without_one_newline};
use crate::text::{cat2, cat3, cat4, cat5, cat7, has_run, lemma_holds, opt_str, opt_view};
use vstd::prelude::*;
use vstd::utf8::encode_utf8;

verus! {

/// The options a secret was offered through.
#[derive(Debug)]
pub struct SecretOpts {
    /// Name of an environment variable.
    pub env: Option<String>,
    /// Whether it is to be read from standard input.
    pub stdin: bool,
}

/// Where a secret is read from.
#[derive(Debug)]
pub enum SecretSource<'a> {
    /// The value itself.
    Literal(&'a str),
    /// The environment variable of that name.
    Env(&'a str),
    /// One line of standard input.
    Stdin,
}

/// What a [`SecretSource`] names.
pub enum SourceView {
    /// A value.
    Literal(Seq<char>),
    /// An environment variable.
    Env(Seq<char>),
    /// Standard input.
    Stdin,
}

impl<'a> View for SecretSource<'a> {
    type V = SourceView;

    open spec fn view(&self) -> SourceView {
        match self {
            SecretSource::Literal(t) => SourceView::Literal(t@),
            SecretSource::Env(v) => SourceView::Env(v@),
            SecretSource::Stdin => SourceView::Stdin,
        }
    }
}

/// How a secret is written down.
#[derive(Clone, Copy, Debug, PartialEq, Eq, Structural)]
pub enum SecretEncoding {
    /// Hexadecimal digits.
    Hex,
    /// Base 32.
    Base32,
    /// The bytes of the text.
    Ascii,
}

/// The message for a secret without a source.
pub open spec fn no_source_text(label: Seq<char>) -> Seq<char> {
    "no source for "@ + label + ": pass --"@ + env_prefix(label) + "env VAR or --"@ + env_prefix(label)
        + "stdin"@
}

/// Chooses the source of the secret called `label`: the environment variable
/// if one was named, else standard input if asked for, else none.
pub fn read_secret<'a>(label: &str, env: Option<&'a str>, from_stdin: bool) -> (r: Result<
    SecretSource<'a>,
    String,
>)
    ensures
        match r {
            Ok(SecretSource::Env(v)) => opt_str(env) == Some(v@),
            Ok(SecretSource::Stdin) => env is None && from_stdin,
            Ok(SecretSource::Literal(_)) => false,
            Err(e) => env is None && !from_stdin && e@ == no_source_text(label@),
        },
{
    match env {
        Some(v) => Ok(SecretSource::Env(v)),
        None => {
            if from_stdin {
                Ok(SecretSource::Stdin)
            } else {
                let p = env_prefix_for(label);
                Err(cat7("no source for ", label, ": pass --", p, "env VAR or --", p, "stdin"))
            }
        },
    }
}

/// The secret that an environment variable holds, or that it is not set.
pub fn secret_from_env(var: &str, label: &str, value: Option<String>) -> (r: Result<String, String>)
    ensures
        match (r, value) {
            (Ok(s), Some(v)) => s@ == v@,
            (Err(e), None) => e@ == "env var "@ + var@ + " (for "@ + label@ + ") is not set"@,
            _ => false,
        },
{
    match value {
        Some(v) => Ok(v),
        None => Err(cat5("env var ", var, " (for ", label, ") is not set")),
    }
}

/// The secret on a line of standard input: the line without its end.
pub fn secret_from_line(line: &str) -> (r: String)
    ensures
        r@ == without_line_end(line@),
{
    trim_line_end(line)
}

/// The warning for a secret that is typed at a terminal.
pub fn terminal_warning(label: &str) -> (r: String)
    ensures
        r@ == "warning: reading "@ + label@
            + " from a terminal — input will be visible; prefer piping (e.g. from a password manager)"@,
{
    cat3(
        "warning: reading ",
        label,
        " from a terminal — input will be visible; prefer piping (e.g. from a password manager)",
    )
}

/// The warning for the secret of a command that is typed at a terminal.
pub fn command_secret_warning(cmd: &str) -> (r: String)
    ensures
        r@ == "warning: reading the "@ + cmd@
            + " secret from a terminal — input will be visible; prefer piping (e.g. from a password manager)"@,
{
    cat3(
        "warning: reading the ",
        cmd,
        " secret from a terminal — input will be visible; prefer piping (e.g. from a password manager)",
    )
}

/// Takes the one option that was given out of several that exclude each other.
pub fn gather_secret<'a>(
    cmd: &str,
    sources_hint: &str,
    supplied: Vec<(SecretEncoding, SecretSource<'a>)>,
) -> (r: Result<(SecretEncoding, SecretSource<'a>), String>)
    ensures
        match r {
            Ok(s) => supplied@.len() == 1 && s == supplied@[0],
            Err(e) => supplied@.len() != 1 && e@ == cmd@ + " requires exactly one of "@ + sources_hint@,
        },
{
    if supplied.len() != 1 {
        return Err(cat3(cmd, " requires exactly one of ", sources_hint));
    }
    let mut supplied = supplied;
    match supplied.pop() {
        Some(s) => Ok(s),
        None => Err(String::new()),
    }
}

/// Which password to use for an encrypted export: the environment variable if
/// one was named, else standard input if asked for, else none.
pub fn read_password(stdin: bool, env_value: Option<Option<String>>, stdin_text: Option<&str>) -> (r:
    Option<String>)
    ensures
        match r {
            Some(s) => match env_value {
                Some(Some(v)) => s@ == v@,
                Some(None) => false,
                None => stdin && stdin_text is Some && s@ == without_one_newline(stdin_text->Some_0@),
            },
            None => match env_value {
                Some(v) => v is None,
                None => !stdin || stdin_text is None,
            },
        },
{
    match env_value {
        Some(v) => v,
        None => {
            if stdin {
                match stdin_text {
                    Some(t) => Some(trim_one_newline(t)),
                    None => None,
                }
            } else {
                None
            }
        },
    }
}

/// The customer key options of a token, in order of precedence.
#[derive(Debug)]
pub enum KeyChoice<'a> {
    /// Hexadecimal digits on the command line.
    Hex(&'a str),
    /// Text on the command line.
    Ascii(&'a str),
    /// Hexadecimal digits in an environment variable.
    HexEnv(&'a str),
    /// Text in an environment variable.
    AsciiEnv(&'a str),
    /// None was given: the factory default.
    Factory,
}

/// The customer key options of a token.
#[derive(Debug)]
pub struct KeyArgs {
    /// Hexadecimal digits.
    pub key: Option<String>,
    /// Text.
    pub key_ascii: Option<String>,
    /// Variable holding hexadecimal digits.
    pub key_env: Option<String>,
    /// Variable holding text.
    pub key_ascii_env: Option<String>,
}

/// Chooses the customer key: the first of the four options that is given, and
/// the factory default when none is.
pub fn customer_key_choice<'a>(args: &'a KeyArgs) -> (r: KeyChoice<'a>)
    ensures
        match r {
            KeyChoice::Hex(h) => args.key is Some && h@ == args.key->Some_0@,
            KeyChoice::Ascii(s) => args.key is None && args.key_ascii is Some && s@ == args.key_ascii->Some_0@,
            KeyChoice::HexEnv(v) => args.key is None && args.key_ascii is None && args.key_env is Some && v@
                == args.key_env->Some_0@,
            KeyChoice::AsciiEnv(v) => args.key is None && args.key_ascii is None && args.key_env is None
                && args.key_ascii_env is Some && v@ == args.key_ascii_env->Some_0@,
            KeyChoice::Factory => args.key is None && args.key_ascii is None && args.key_env is None
                && args.key_ascii_env is None,
        },
{
    if let Some(h) = &args.key {
        return KeyChoice::Hex(h.as_str());
    }
    if let Some(s) = &args.key_ascii {
        return KeyChoice::Ascii(s.as_str());
    }
    if let Some(v) = &args.key_env {
        return KeyChoice::HexEnv(v.as_str());
    }
    if let Some(v) = &args.key_ascii_env {
        return KeyChoice::AsciiEnv(v.as_str());
    }
    KeyChoice::Factory
}

/// Whether the factory default key is in use.
pub fn uses_default_key(args: &KeyArgs) -> (r: bool)
    ensures
        r == (args.key is None && args.key_ascii is None && args.key_env is None && args.key_ascii_env is None),
{
    match customer_key_choice(args) {
        KeyChoice::Factory => true,
        _ => false,
    }
}

/// The customer key, or why it cannot be had. `env_value` is what the named
/// variable holds, `decoded` what the given hexadecimal digits decode to.
pub open spec fn customer_key_spec(
    args: KeyArgs,
    env_value: Option<Seq<char>>,
    decoded: Result<Seq<u8>, Seq<char>>,
    factory: Seq<u8>,
) -> Result<Seq<u8>, Seq<char>> {
    if args.key is Some {
        match decoded {
            Ok(b) => Ok(b),
            Err(e) => Err("invalid --key hex: "@ + e),
        }
    } else if args.key_ascii is Some {
        Ok(encode_utf8(args.key_ascii->Some_0@))
    } else if args.key_env is Some {
        if env_value is None {
            Err("env var "@ + args.key_env->Some_0@ + " (--key-env) is not set"@)
        } else {
            match decoded {
                Ok(b) => Ok(b),
                Err(e) => Err("invalid hex in --key-env "@ + args.key_env->Some_0@ + ": "@ + e),
            }
        }
    } else if args.key_ascii_env is Some {
        match env_value {
            Some(v) => Ok(encode_utf8(v)),
            None => Err("env var "@ + args.key_ascii_env->Some_0@ + " (--key-ascii-env) is not set"@),
        }
    } else {
        Ok(factory)
    }
}

/// What a result over bytes holds.
pub open spec fn bytes_result(r: Result<Vec<u8>, String>) -> Result<Seq<u8>, Seq<char>> {
    match r {
        Ok(b) => Ok(b@),
        Err(e) => Err(e@),
    }
}

/// The bytes of the customer key, from the first option that is given.
pub fn customer_key_bytes(
    args: &KeyArgs,
    env_value: Option<String>,
    decoded: Result<Vec<u8>, String>,
    factory: Vec<u8>,
) -> (r: Result<Vec<u8>, String>)
    ensures
        bytes_result(r) == customer_key_spec(*args, opt_view(env_value), bytes_result(decoded), factory@),
{
    match customer_key_choice(args) {
        KeyChoice::Hex(_) => match decoded {
            Ok(b) => Ok(b),
            Err(e) => Err(cat2("invalid --key hex: ", e.as_str())),
        },
        KeyChoice::Ascii(s) => Ok(s.as_bytes_vec()),
        KeyChoice::HexEnv(v) => match env_value {
            None => Err(cat3("env var ", v, " (--key-env) is not set")),
            Some(_) => match decoded {
                Ok(b) => Ok(b),
                Err(e) => Err(cat4("invalid hex in --key-env ", v, ": ", e.as_str())),
            },
        },
        KeyChoice::AsciiEnv(v) => match env_value {
            Some(t) => Ok(t.as_str().as_bytes_vec()),
            None => Err(cat3("env var ", v, " (--key-ascii-env) is not set")),
        },
        KeyChoice::Factory => Ok(factory),
    }
}

/// Reports that a secret is no base 32; `what` is what it was to be.
pub fn bad_base32(what: &str, reason: &str) -> (r: String)
    ensures
        r@ == "invalid base32 "@ + what@ + ": "@ + reason@,
{
    cat4("invalid base32 ", what, ": ", reason)
}

/// Reports that the value of an option is no hexadecimal text.
pub fn bad_hex(option: &str, reason: &str) -> (r: String)
    ensures
        r@ == option@ + " is not valid hex: "@ + reason@,
{
    cat3(option, " is not valid hex: ", reason)
}

/// The first customer key option that is given counts: what comes after it makes
/// no difference, and the factory key is used just where none was given.
pub proof fn law_first_key_option_counts(
    a: KeyArgs,
    b: KeyArgs,
    env_value: Option<Seq<char>>,
    decoded: Result<Seq<u8>, Seq<char>>,
    factory: Seq<u8>,
    other_factory: Seq<u8>,
)
    ensures
        a.key is Some ==> (customer_key_spec(a, env_value, decoded, factory) is Ok <==> decoded is Ok) && (decoded
            matches Ok(k) ==> customer_key_spec(a, env_value, decoded, factory) == Ok::<Seq<u8>, Seq<char>>(k)),
        a.key is None && a.key_ascii is Some ==> customer_key_spec(a, env_value, decoded, factory) == Ok::<
            Seq<u8>,
            Seq<char>,
        >(encode_utf8(a.key_ascii->Some_0@)),
        a.key is None && a.key_ascii is None && a.key_env is Some ==> (customer_key_spec(
            a,
            env_value,
            decoded,
            factory,
        ) is Ok <==> env_value is Some && decoded is Ok) && (env_value is Some && decoded is Ok ==> customer_key_spec(
            a,
            env_value,
            decoded,
            factory,
        ) == decoded),
        a.key is None && a.key_ascii is None && a.key_env is None && a.key_ascii_env is Some ==> (match env_value {
            Some(v) => customer_key_spec(a, env_value, decoded, factory) == Ok::<Seq<u8>, Seq<char>>(encode_utf8(v)),
            None => customer_key_spec(a, env_value, decoded, factory) is Err,
        }),
        a.key is None && a.key_ascii is None && a.key_env is None && a.key_ascii_env is None ==> customer_key_spec(
            a,
            env_value,
            decoded,
            factory,
        ) == Ok::<Seq<u8>, Seq<char>>(factory),
        a.key == b.key && a.key_ascii == b.key_ascii && (a.key is Some || a.key_ascii is Some) ==> customer_key_spec(
            a,
            env_value,
            decoded,
            factory,
        ) == customer_key_spec(b, env_value, decoded, other_factory),
{
}

/// Where a secret has no source, it is named, and so are the two options that
/// would give it.
pub proof fn law_missing_secret_is_named(label: Seq<char>)
    ensures
        has_run(no_source_text(label), label),
        has_run(no_source_text(label), env_prefix(label) + "env VAR"@),
        has_run(no_source_text(label), env_prefix(label) + "stdin"@),
{
    let t = no_source_text(label);
    let p = env_prefix(label);
    reveal_strlit("env VAR or --");
    reveal_strlit("env VAR");
    reveal_strlit(" or --");
    assert("env VAR or --"@ =~= "env VAR"@ + " or --"@);
    let head = "no source for "@;
    lemma_holds(t, head, label, ": pass --"@ + p + "env VAR or --"@ + p + "stdin"@);
    lemma_holds(t, head + label + ": pass --"@, p + "env VAR"@, " or --"@ + p + "stdin"@);
    lemma_holds(t, head + label + ": pass --"@ + p + "env VAR or --"@, p + "stdin"@, Seq::empty());
}

} // verus!
