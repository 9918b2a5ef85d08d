//! Commands and the handlers behind them.
//!
//! A handler is user code exposing one uniform entry point,
//! `call(Option<String>) -> String`, described in specifications by the
//! handler's own `spec_call`. A [`Command`] fixes, at registration time,
//! how the dispatch engine feeds arguments to that entry point: a
//! `NoArgs` command ignores the arguments, a `OneArg` command passes the
//! raw argument string through, substituting an empty string when the
//! arguments are absent.

use vstd::prelude::*;

verus! {

/// A unit of user-supplied behaviour: given optional raw arguments,
/// produce the text of a reply.
///
/// Implementors must say, through `spec_call`, what text `call` returns,
/// so that contracts over a whole bot can speak about handler output.
pub trait CommandHandler: Send + Sync {
    /// The text `call` returns for the given (optional) argument text.
    spec fn spec_call(&self, args: Option<Seq<char>>) -> Seq<char>;

    /// Produce the reply text for the given arguments.
    fn call(&self, args: Option<String>) -> (r: String)
        ensures
            r@ == self.spec_call(match args {
                Option::Some(a) => Option::Some(a@),
                Option::None => Option::None::<Seq<char>>,
            }),
    ;
}

/// A registered command: a handler together with its declared arity.
pub enum Command {
    /// The handler takes no arguments; whatever the caller typed after
    /// the command name is ignored.
    NoArgs(Box<dyn CommandHandler>),
    /// The handler takes the raw argument string; a missing argument
    /// string is treated as empty.
    OneArg(Box<dyn CommandHandler>),
}

/// Anything that can be turned into a registered [`Command`].
///
/// The conversion decides the command's arity once, at registration
/// time; the dispatch engine never inspects the handler again.
pub trait IntoCommand {
    /// The command that `into_command` returns.
    spec fn spec_into_command(self) -> Command;

    /// Convert `self` into a registered command.
    fn into_command(self) -> (c: Command)
        ensures
            c == self.spec_into_command(),
    ;
}

impl IntoCommand for Command {
    open spec fn spec_into_command(self) -> Command {
        self
    }

    fn into_command(self) -> (c: Command) {
        self
    }
}

impl Command {
    /// The reply text produced by invoking this command on the given
    /// (optional) argument text, after arity normalization.
    pub open spec fn spec_invoke(&self, args: Option<Seq<char>>) -> Seq<char> {
        match self {
            Command::NoArgs(h) => h.spec_call(Option::None),
            Command::OneArg(h) => h.spec_call(Option::Some(match args {
                Option::Some(a) => a,
                Option::None => Seq::empty(),
            })),
        }
    }

    /// Invoke the command's handler through the uniform interface: a
    /// `NoArgs` handler sees no arguments at all, a `OneArg` handler sees
    /// the raw argument string, or an empty string when it is missing.
    pub fn invoke(&self, args: Option<String>) -> (r: String)
        ensures
            r@ == self.spec_invoke(match args {
                Option::Some(a) => Option::Some(a@),
                Option::None => Option::None::<Seq<char>>,
            }),
    {
        match self {
            Command::NoArgs(h) => h.call(Option::None),
            Command::OneArg(h) => h.call(Option::Some(match args {
                Option::Some(a) => a,
                Option::None => String::new(),
            })),
        }
    }

    /// A short description of the command's shape, naming its arity.
    ///
    /// Stands in for a `Debug` rendering: the handler itself is opaque,
    /// so only the arity can be shown.
    pub fn describe(&self) -> (r: String)
        ensures
            self matches Command::NoArgs(_) ==> r@ == "NoArgs(<handler>)"@,
            self matches Command::OneArg(_) ==> r@ == "OneArg(<handler>)"@,
    {
        match self {
            Command::NoArgs(_) => "NoArgs(<handler>)".to_owned(),
            Command::OneArg(_) => "OneArg(<handler>)".to_owned(),
        }
    }
}

/// A handler that answers every invocation with the same fixed text.
pub struct StaticResponder {
    pub text: String,
}

impl CommandHandler for StaticResponder {
    open spec fn spec_call(&self, _args: Option<Seq<char>>) -> Seq<char> {
        self.text@
    }

    fn call(&self, _args: Option<String>) -> (r: String) {
        self.text.clone()
    }
}

/// A handler that answers with a fixed prefix followed by the raw
/// argument text it was given (the prefix alone when no arguments came).
pub struct PrefixResponder {
    pub prefix: String,
}

impl CommandHandler for PrefixResponder {
    open spec fn spec_call(&self, args: Option<Seq<char>>) -> Seq<char> {
        self.prefix@ + match args {
            Option::Some(a) => a,
            Option::None => Seq::empty(),
        }
    }

    fn call(&self, args: Option<String>) -> (r: String) {
        let mut r = self.prefix.clone();
        match args {
            Option::Some(a) => {
                r.append(a.as_str());
            },
            Option::None => {
                proof {
                    assert(self.prefix@ + Seq::<char>::empty() =~= self.prefix@);
                }
            },
        }
        r
    }
}

} // verus!
