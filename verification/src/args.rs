use vstd::prelude::*;
use vstd::string::StrSliceExecFns;

verus! {

/// Which flag, if any, is waiting for its value token.
pub enum Expecting {
    Nothing,
    Value,
    Icon,
    Text,
}

/// Result of reading the command line.
pub enum Invocation {
    /// No arguments were given: show usage and exit without a window.
    Help,
    /// A token arrived while no flag was pending: report it and exit
    /// without a window.
    Unknown(String),
    /// The three optional content channels: percentage value, caption
    /// text, icon reference.
    Run { value: Option<String>, text: Option<String>, icon: Option<String> },
}

/// `Invocation` with each token abstracted to its character sequence.
pub enum InvocationView {
    Help,
    Unknown(Seq<char>),
    Run { value: Option<Seq<char>>, text: Option<Seq<char>>, icon: Option<Seq<char>> },
}

/// The characters of an optional token.
pub open spec fn opt_view(o: Option<String>) -> Option<Seq<char>> {
    match o {
        Option::None => Option::None,
        Option::Some(s) => Option::Some(s@),
    }
}

/// The token is the two-character flag `-c`.
pub open spec fn is_flag(t: Seq<char>, c: char) -> bool {
    t.len() == 2 && t[0] == '-' && t[1] == c
}

/// One step of command-line reading: what the token `t` does to the
/// pending flag and the three channels.
pub open spec fn spec_read_args(
    tokens: Seq<Seq<char>>,
    pending: Expecting,
    value: Option<Seq<char>>,
    text: Option<Seq<char>>,
    icon: Option<Seq<char>>,
) -> InvocationView
    decreases tokens.len(),
{
    if tokens.len() == 0 {
        InvocationView::Run { value, text, icon }
    } else {
        let t = tokens[0];
        let rest = tokens.subrange(1, tokens.len() as int);
        if is_flag(t, 'v') {
            spec_read_args(rest, Expecting::Value, value, text, icon)
        } else if is_flag(t, 'i') {
            spec_read_args(rest, Expecting::Icon, value, text, icon)
        } else if is_flag(t, 't') {
            spec_read_args(rest, Expecting::Text, value, text, icon)
        } else {
            match pending {
                Expecting::Value => spec_read_args(rest, Expecting::Nothing, Option::Some(t), text, icon),
                Expecting::Icon => spec_read_args(rest, Expecting::Nothing, value, text, Option::Some(t)),
                Expecting::Text => spec_read_args(rest, Expecting::Nothing, value, Option::Some(t), icon),
                Expecting::Nothing => InvocationView::Unknown(t),
            }
        }
    }
}

/// What a command line denotes: usage help when no argument follows the
/// program name, otherwise the result of reading the argument tokens in
/// order with no flag pending and all channels empty.
pub open spec fn spec_invocation(argv: Seq<Seq<char>>) -> InvocationView {
    if argv.len() < 2 {
        InvocationView::Help
    } else {
        spec_read_args(
            argv.subrange(1, argv.len() as int),
            Expecting::Nothing,
            Option::None,
            Option::None,
            Option::None,
        )
    }
}

/// The views of a sequence of tokens.
pub open spec fn tokens_view(argv: Seq<String>) -> Seq<Seq<char>> {
    argv.map_values(|s: String| s@)
}

/// The token is the two-character flag `-c`.
fn flag_matches(t: &String, c: char) -> (r: bool)
    ensures
        r == is_flag(t@, c),
{
    let st = t.as_str();
    st.unicode_len() == 2 && st.get_char(0) == '-' && st.get_char(1) == c
}

/// Reads the command line `argv` (program name first) into an
/// `Invocation`: `-v`, `-i` and `-t` each take the following token as the
/// percentage value, icon reference and caption text respectively; a later
/// occurrence of a flag replaces the earlier value; a token with no flag
/// pending stops the run.
pub fn read_args(argv: &Vec<String>) -> (r: Invocation)
    ensures
        match r {
            Invocation::Help => spec_invocation(tokens_view(argv@)) == InvocationView::Help,
            Invocation::Unknown(t) => spec_invocation(tokens_view(argv@))
                == InvocationView::Unknown(t@),
            Invocation::Run { value, text, icon } => spec_invocation(tokens_view(argv@))
                == (InvocationView::Run {
                    value: opt_view(value),
                    text: opt_view(text),
                    icon: opt_view(icon),
                }),
        },
{
    let ghost toks = tokens_view(argv@);
    if argv.len() < 2 {
        return Invocation::Help;
    }
    let mut pending = Expecting::Nothing;
    let mut value: Option<String> = None;
    let mut text: Option<String> = None;
    let mut icon: Option<String> = None;
    let mut i: usize = 1;
    proof {
        assert(toks.subrange(1, toks.len() as int) =~= toks.subrange(i as int, toks.len() as int));
    }
    while i < argv.len()
        invariant
            1 <= i <= argv.len(),
            toks == tokens_view(argv@),
            toks.len() == argv@.len(),
            forall|j: int| 0 <= j < toks.len() ==> toks[j] == #[trigger] argv@[j]@,
            spec_invocation(toks) == spec_read_args(
                toks.subrange(i as int, toks.len() as int),
                pending,
                opt_view(value),
                opt_view(text),
                opt_view(icon),
            ),
        decreases argv.len() - i,
    {
        let arg = &argv[i];
        let ghost rest = toks.subrange(i as int, toks.len() as int);
        proof {
            assert(rest[0] == arg@);
            assert(rest.subrange(1, rest.len() as int) =~= toks.subrange(
                i + 1,
                toks.len() as int,
            ));
        }
        if flag_matches(arg, 'v') {
            pending = Expecting::Value;
        } else if flag_matches(arg, 'i') {
            pending = Expecting::Icon;
        } else if flag_matches(arg, 't') {
            pending = Expecting::Text;
        } else {
            match pending {
                Expecting::Value => {
                    value = Some(arg.clone());
                },
                Expecting::Icon => {
                    icon = Some(arg.clone());
                },
                Expecting::Text => {
                    text = Some(arg.clone());
                },
                Expecting::Nothing => {
                    return Invocation::Unknown(arg.clone());
                },
            }
            pending = Expecting::Nothing;
        }
        i += 1;
    }
    proof {
        assert(toks.subrange(i as int, toks.len() as int) =~= Seq::<Seq<char>>::empty());
    }
    Invocation::Run { value, text, icon }
}

} // verus!
