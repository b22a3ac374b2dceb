use vstd::prelude::*;
use vstd::string::StringExecFns;

verus! {

/// Display used when no arguments are given.
pub const DEFAULT_DISPLAY: &'static str = "terminal";

/// Audio source used when no arguments are given.
pub const DEFAULT_AUDIO_SOURCE: &'static str = "mic";

/// The two names chosen on the command line.
pub struct AppArgs {
    pub display_name: String,
    pub audio_source_name: String,
}

/// Why the command line was refused.
pub enum ArgsError {
    /// Exactly one argument was given; it is kept for the message.
    OneArgument { given: String },
    /// The first of two arguments names no display.
    InvalidDisplay { given: String },
    /// The second of two arguments names no audio source.
    InvalidAudioSource { given: String },
    /// More than two arguments were given.
    TooManyArguments,
}

/// The names a display may be given, in the order they are listed to the user.
pub open spec fn display_names() -> Seq<Seq<char>> {
    seq!["terminal"@, "bars"@, "oled"@]
}

/// The names an audio source may be given, in the order they are listed to the user.
pub open spec fn audio_source_names() -> Seq<Seq<char>> {
    seq!["mic"@, "wav"@]
}

/// The character views of a list of string slices.
pub open spec fn str_views(list: Seq<&str>) -> Seq<Seq<char>> {
    list.map_values(|s: &str| s@)
}

/// The character views of a list of strings.
pub open spec fn string_views(list: Seq<String>) -> Seq<Seq<char>> {
    list.map_values(|s: String| s@)
}

/// The views of a list are the views of its entries, one for one, in order.
pub proof fn lemma_views_follow_entries(strs: Seq<&str>, strings: Seq<String>)
    ensures
        str_views(strs).len() == strs.len(),
        forall|i: int| 0 <= i < strs.len() ==> #[trigger] str_views(strs)[i] == strs[i]@,
        string_views(strings).len() == strings.len(),
        forall|i: int| 0 <= i < strings.len() ==> #[trigger] string_views(strings)[i] == strings[i]@,
{
}

/// `list` written one after the other with `sep` between neighbours.
pub open spec fn joined(list: Seq<Seq<char>>, sep: Seq<char>) -> Seq<char>
    decreases list.len(),
{
    if list.len() == 0 {
        Seq::empty()
    } else if list.len() == 1 {
        list[0]
    } else {
        joined(list.drop_last(), sep) + sep + list.last()
    }
}

/// The valid display names, in the order they are listed to the user.
pub fn valid_displays() -> (names: Vec<&'static str>)
    ensures
        str_views(names@) == display_names(),
{
    let names = vec!["terminal", "bars", "oled"];
    assert(str_views(names@) =~= display_names());
    names
}

/// The valid audio source names, in the order they are listed to the user.
pub fn valid_audio_sources() -> (names: Vec<&'static str>)
    ensures
        str_views(names@) == audio_source_names(),
{
    let names = vec!["mic", "wav"];
    assert(str_views(names@) =~= audio_source_names());
    names
}

/// Whether `name` is one of the entries of `list`.
pub fn contains_name(list: &Vec<&str>, name: &str) -> (found: bool)
    ensures
        found == str_views(list@).contains(name@),
{
    let wanted = name.to_owned();
    let mut i: usize = 0;
    while i < list.len()
        invariant
            0 <= i <= list.len(),
            wanted@ == name@,
            forall|j: int| 0 <= j < i ==> list@[j]@ != name@,
        decreases list.len() - i,
    {
        let candidate = list[i].to_owned();
        if candidate == wanted {
            assert(str_views(list@)[i as int] == name@);
            return true;
        }
        i = i + 1;
    }
    assert forall|j: int| 0 <= j < str_views(list@).len() implies str_views(list@)[j] != name@ by {
        assert(list@[j]@ != name@);
    }
    false
}

/// Writes the entries of `list` one after the other, separated by `sep`.
pub fn join(list: &Vec<&str>, sep: &str) -> (text: String)
    ensures
        text@ == joined(str_views(list@), sep@),
{
    let ghost views = str_views(list@);
    let mut text = String::new();
    let mut i: usize = 0;
    while i < list.len()
        invariant
            0 <= i <= list.len(),
            views == str_views(list@),
            text@ == joined(views.take(i as int), sep@),
        decreases list.len() - i,
    {
        assert(views.take(i + 1).drop_last() =~= views.take(i as int));
        if i > 0 {
            text.append(sep);
        } else {
            assert(views.take(0) =~= Seq::<Seq<char>>::empty());
        }
        text.append(list[i]);
        i = i + 1;
    }
    assert(views.take(list.len() as int) =~= views);
    text
}

/// Whether `name` is a display the program offers.
pub open spec fn is_display_name(name: Seq<char>) -> bool {
    display_names().contains(name)
}

/// Whether `name` is an audio source the program offers.
pub open spec fn is_audio_source_name(name: Seq<char>) -> bool {
    audio_source_names().contains(name)
}

/// What the command line (program name left out) yields: the names chosen,
/// or the reason it is refused.
pub open spec fn args_accepted(args: Seq<Seq<char>>, res: Result<AppArgs, ArgsError>) -> bool {
    match res {
        Ok(chosen) => {
            ||| args.len() == 0 && chosen.display_name@ == DEFAULT_DISPLAY@
                && chosen.audio_source_name@ == DEFAULT_AUDIO_SOURCE@
            ||| args.len() == 2 && is_display_name(args[0]) && is_audio_source_name(args[1])
                && chosen.display_name@ == args[0] && chosen.audio_source_name@ == args[1]
        },
        Err(ArgsError::OneArgument { given }) => args.len() == 1 && given@ == args[0],
        Err(ArgsError::InvalidDisplay { given }) => args.len() == 2 && !is_display_name(args[0])
            && given@ == args[0],
        Err(ArgsError::InvalidAudioSource { given }) => args.len() == 2 && is_display_name(args[0])
            && !is_audio_source_name(args[1]) && given@ == args[1],
        Err(ArgsError::TooManyArguments) => args.len() > 2,
    }
}

/// Chooses the display and the audio source from the command line arguments
/// (the program name already left out). No arguments select the defaults;
/// two arguments name a display and an audio source, display first, and are
/// checked in that order; any other count is refused.
pub fn parse_args(args: Vec<String>) -> (res: Result<AppArgs, ArgsError>)
    ensures
        args_accepted(string_views(args@), res),
{
    let ghost views = string_views(args@);
    let n = args.len();
    if n == 0 {
        Ok(AppArgs {
            display_name: DEFAULT_DISPLAY.to_owned(),
            audio_source_name: DEFAULT_AUDIO_SOURCE.to_owned(),
        })
    } else if n == 1 {
        Err(ArgsError::OneArgument { given: args[0].clone() })
    } else if n == 2 {
        let display = args[0].as_str();
        let audio = args[1].as_str();
        assert(views[0] == display@ && views[1] == audio@);
        if !contains_name(&valid_displays(), display) {
            return Err(ArgsError::InvalidDisplay { given: display.to_owned() });
        }
        if !contains_name(&valid_audio_sources(), audio) {
            return Err(ArgsError::InvalidAudioSource { given: audio.to_owned() });
        }
        Ok(AppArgs { display_name: display.to_owned(), audio_source_name: audio.to_owned() })
    } else {
        Err(ArgsError::TooManyArguments)
    }
}

/// What the command line yields, stated on the arguments themselves: no
/// arguments choose the terminal display and the microphone; two arguments
/// naming a known display and a known audio source choose exactly those,
/// first the display, then the source; one argument, more than two, an
/// unknown display (checked first) or an unknown audio source are refused
/// with that argument.
pub proof fn lemma_parse_args_outcomes(args: Seq<Seq<char>>, res: Result<AppArgs, ArgsError>)
    requires
        args_accepted(args, res),
    ensures
        args.len() == 0 ==> (res matches Ok(chosen) && chosen.display_name@ == "terminal"@
            && chosen.audio_source_name@ == "mic"@),
        args.len() == 2 && (args[0] == "terminal"@ || args[0] == "bars"@ || args[0] == "oled"@) && (
        args[1] == "mic"@ || args[1] == "wav"@) ==> (res matches Ok(chosen) && chosen.display_name@
            == args[0] && chosen.audio_source_name@ == args[1]),
        args.len() == 1 ==> (res matches Err(ArgsError::OneArgument { given }) && given@ == args[0]),
        args.len() > 2 ==> res matches Err(ArgsError::TooManyArguments),
        args.len() == 2 && !(args[0] == "terminal"@ || args[0] == "bars"@ || args[0] == "oled"@) ==> (
        res matches Err(ArgsError::InvalidDisplay { given }) && given@ == args[0]),
        args.len() == 2 && (args[0] == "terminal"@ || args[0] == "bars"@ || args[0] == "oled"@) && !(
        args[1] == "mic"@ || args[1] == "wav"@) ==> (res matches Err(
            ArgsError::InvalidAudioSource { given },
        ) && given@ == args[1]),
        res is Ok ==> args.len() == 0 || args.len() == 2,
{
    let d = display_names();
    let a = audio_source_names();
    assert(d[0] == "terminal"@ && d[1] == "bars"@ && d[2] == "oled"@);
    assert(a[0] == "mic"@ && a[1] == "wav"@);
    if args.len() == 2 {
        if args[0] == "terminal"@ || args[0] == "bars"@ || args[0] == "oled"@ {
            assert(is_display_name(args[0]));
        } else {
            assert forall|i: int| 0 <= i < d.len() implies d[i] != args[0] by {}
        }
        if args[1] == "mic"@ || args[1] == "wav"@ {
            assert(is_audio_source_name(args[1]));
        } else {
            assert forall|i: int| 0 <= i < a.len() implies a[i] != args[1] by {}
        }
    }
}

/// Whether `part` occurs in `text` as a contiguous piece.
pub open spec fn contains_piece(text: Seq<char>, part: Seq<char>) -> bool {
    exists|i: int| 0 <= i && i + part.len() <= text.len() && #[trigger] text.subrange(i, i + part.len()) == part
}

/// The message of a refusal names the argument that was refused.
pub proof fn lemma_message_names_the_argument(err: ArgsError)
    ensures
        err matches ArgsError::OneArgument { given } ==> contains_piece(err.spec_message(), given@),
        err matches ArgsError::InvalidDisplay { given } ==> contains_piece(err.spec_message(), given@),
        err matches ArgsError::InvalidAudioSource { given } ==> contains_piece(err.spec_message(), given@),
{
    match err {
        ArgsError::OneArgument { given } => {
            let head = "Only one argument was provided ('"@;
            let m = err.spec_message();
            assert(m.subrange(head.len() as int, (head.len() + given@.len()) as int) =~= given@);
        },
        ArgsError::InvalidDisplay { given } => {
            let head = "Invalid display '"@;
            let m = err.spec_message();
            assert(m.subrange(head.len() as int, (head.len() + given@.len()) as int) =~= given@);
        },
        ArgsError::InvalidAudioSource { given } => {
            let head = "Invalid audio source '"@;
            let m = err.spec_message();
            assert(m.subrange(head.len() as int, (head.len() + given@.len()) as int) =~= given@);
        },
        ArgsError::TooManyArguments => {},
    }
}

/// Joining keeps every entry, in order, with one separator between each two
/// neighbours: the result starts with the first entry, ends with the last,
/// and its length is the entries' lengths plus one separator per gap.
pub proof fn lemma_joined_shape(list: Seq<Seq<char>>, sep: Seq<char>, extra: Seq<char>)
    ensures
        list.len() > 0 ==> joined(list, sep).len() >= list[0].len(),
        list.len() > 0 ==> joined(list, sep).subrange(0, list[0].len() as int) == list[0],
        list.len() > 0 ==> joined(list, sep).len() >= list.last().len() && joined(list, sep).subrange(
            joined(list, sep).len() - list.last().len(),
            joined(list, sep).len() as int,
        ) == list.last(),
        list.len() > 0 ==> joined(list.push(extra), sep) == joined(list, sep) + sep + extra,
        joined(list, sep).len() == total_len(list) + (if list.len() == 0 {
            0
        } else {
            (list.len() - 1) * sep.len()
        }),
    decreases list.len(),
{
    if list.len() > 0 {
        assert(list.push(extra).drop_last() =~= list);
        lemma_joined_shape(list.drop_last(), sep, list.last());
        if list.len() > 1 {
            assert(list.drop_last()[0] == list[0]);
            let j = joined(list.drop_last(), sep);
            assert(joined(list, sep) == j + sep + list.last());
            assert((j + sep + list.last()).subrange(0, list[0].len() as int) =~= j.subrange(
                0,
                list[0].len() as int,
            ));
            assert(list.drop_last().last() == list[list.len() - 2]);
        }
        let all = joined(list, sep);
        assert(all.subrange(all.len() - list.last().len(), all.len() as int) =~= list.last()) by {
            if list.len() > 1 {
                let j = joined(list.drop_last(), sep);
                assert(all == j + sep + list.last());
            } else {
                assert(all == list[0]);
            }
        }
        assert(total_len(list) == total_len(list.drop_last()) + list.last().len());
        if list.len() > 1 {
            let n = list.len() as int;
            let k = sep.len() as int;
            assert((n - 1) * k == (n - 2) * k + k) by (nonlinear_arith);
            let j = joined(list.drop_last(), sep);
            assert(joined(list, sep) == j + sep + list.last());
        } else {
            let k = sep.len() as int;
            assert(0 * k == 0) by (nonlinear_arith);
            assert(list.drop_last().len() == 0);
            assert(total_len(list.drop_last()) == 0);
        }
    }
}

/// The summed length of a list of texts.
pub open spec fn total_len(list: Seq<Seq<char>>) -> nat
    decreases list.len(),
{
    if list.len() == 0 {
        0
    } else {
        total_len(list.drop_last()) + list.last().len()
    }
}

/// The explanation of the accepted forms that closes the messages about a
/// wrong number of arguments.
pub open spec fn usage_text() -> Seq<char> {
    "Expected either:\n- no arguments (defaults: "@ + DEFAULT_DISPLAY@ + " "@
        + DEFAULT_AUDIO_SOURCE@ + ")\n- two arguments: <display> <audio_source>\nValid displays: "@
        + joined(display_names(), ", "@) + "\nValid audio sources: "@ + joined(
        audio_source_names(),
        ", "@,
    )
}

impl ArgsError {
    /// The message shown to the user for this error.
    pub open spec fn spec_message(&self) -> Seq<char> {
        match self {
            ArgsError::OneArgument { given } => "Only one argument was provided ('"@ + given@
                + "').\n"@ + usage_text(),
            ArgsError::InvalidDisplay { given } => "Invalid display '"@ + given@
                + "'. Valid options are: "@ + joined(display_names(), ", "@),
            ArgsError::InvalidAudioSource { given } => "Invalid audio source '"@ + given@
                + "'. Valid options are: "@ + joined(audio_source_names(), ", "@),
            ArgsError::TooManyArguments => "Too many arguments.\n"@ + usage_text(),
        }
    }

    /// The message shown to the user for this error.
    pub fn message(&self) -> (text: String)
        ensures
            text@ == self.spec_message(),
    {
        let mut text = String::new();
        match self {
            ArgsError::OneArgument { given } => {
                text.append("Only one argument was provided ('");
                text.append(given.as_str());
                text.append("').\n");
                append_usage(&mut text);
            },
            ArgsError::InvalidDisplay { given } => {
                text.append("Invalid display '");
                text.append(given.as_str());
                text.append("'. Valid options are: ");
                let names = join(&valid_displays(), ", ");
                text.append(names.as_str());
            },
            ArgsError::InvalidAudioSource { given } => {
                text.append("Invalid audio source '");
                text.append(given.as_str());
                text.append("'. Valid options are: ");
                let names = join(&valid_audio_sources(), ", ");
                text.append(names.as_str());
            },
            ArgsError::TooManyArguments => {
                text.append("Too many arguments.\n");
                append_usage(&mut text);
            },
        }
        text
    }
}

/// Appends the explanation of the accepted forms.
fn append_usage(text: &mut String)
    ensures
        final(text)@ == old(text)@ + usage_text(),
{
    let ghost start = text@;
    text.append("Expected either:\n- no arguments (defaults: ");
    text.append(DEFAULT_DISPLAY);
    text.append(" ");
    text.append(DEFAULT_AUDIO_SOURCE);
    text.append(")\n- two arguments: <display> <audio_source>\nValid displays: ");
    let displays = join(&valid_displays(), ", ");
    text.append(displays.as_str());
    text.append("\nValid audio sources: ");
    let sources = join(&valid_audio_sources(), ", ");
    text.append(sources.as_str());
    assert(text@ =~= start + usage_text());
}

} // verus!
