use vstd::prelude::*;
use vstd::string::StringExecFns;

verus! {

/// Where the samples come from.
#[derive(Debug, Clone, Copy, PartialEq, Eq)]
pub enum AudioSourceKind {
    /// The default input device of the host.
    Microphone,
    /// The WAV file named by `configs::WAV_FILE`, played in a loop.
    Wav,
}

/// Where the band levels are shown.
#[derive(Debug, Clone, Copy, PartialEq, Eq)]
pub enum DisplayKind {
    /// The SSD1306 OLED screen on the I2C bus.
    Oled,
    /// Bars drawn with block characters in the terminal.
    TerminalBars,
    /// Plain text in the terminal.
    Terminal,
}

/// How a device is brought up: on its own, or with a second one that is
/// tried when the first cannot be created or fails its self-test.
#[derive(Debug, Clone, Copy, PartialEq, Eq)]
pub enum SetupPlan<K> {
    Single(K),
    WithFallback { primary: K, backup: K },
}

/// A name that selects no device.
#[derive(Debug)]
pub enum SelectionError {
    UnknownAudioSource { name: String },
    UnknownDisplay { name: String },
}

/// How the audio source named `name` is brought up, if the name is known.
pub open spec fn audio_plan_for(name: Seq<char>) -> Option<SetupPlan<AudioSourceKind>> {
    if name == "mic"@ {
        Some(SetupPlan::WithFallback { primary: AudioSourceKind::Microphone, backup: AudioSourceKind::Wav })
    } else if name == "wav"@ {
        Some(SetupPlan::Single(AudioSourceKind::Wav))
    } else {
        None
    }
}

/// How the display named `name` is brought up, if the name is known.
pub open spec fn display_plan_for(name: Seq<char>) -> Option<SetupPlan<DisplayKind>> {
    if name == "oled"@ {
        Some(SetupPlan::WithFallback { primary: DisplayKind::Oled, backup: DisplayKind::Terminal })
    } else if name == "bars"@ {
        Some(SetupPlan::WithFallback { primary: DisplayKind::TerminalBars, backup: DisplayKind::Terminal })
    } else if name == "terminal"@ {
        Some(SetupPlan::Single(DisplayKind::Terminal))
    } else {
        None
    }
}

/// Whether `name` spells `literal`.
fn is_named(name: &str, literal: &str) -> (same: bool)
    ensures
        same == (name@ == literal@),
{
    name.to_owned() == literal.to_owned()
}

/// Chooses how to bring up the audio source named `name`: the microphone
/// with the WAV file as fallback for "mic", the WAV file alone for "wav".
pub fn audio_source_plan(name: &str) -> (res: Result<SetupPlan<AudioSourceKind>, SelectionError>)
    ensures
        match res {
            Ok(plan) => audio_plan_for(name@) == Some(plan),
            Err(SelectionError::UnknownAudioSource { name: given }) => audio_plan_for(name@) is None
                && given@ == name@,
            Err(SelectionError::UnknownDisplay { .. }) => false,
        },
{
    if is_named(name, "mic") {
        Ok(SetupPlan::WithFallback { primary: AudioSourceKind::Microphone, backup: AudioSourceKind::Wav })
    } else if is_named(name, "wav") {
        Ok(SetupPlan::Single(AudioSourceKind::Wav))
    } else {
        Err(SelectionError::UnknownAudioSource { name: name.to_owned() })
    }
}

/// Chooses how to bring up the display named `name`: the OLED screen or the
/// terminal bars with the plain terminal as fallback, or the plain terminal
/// alone.
pub fn display_plan(name: &str) -> (res: Result<SetupPlan<DisplayKind>, SelectionError>)
    ensures
        match res {
            Ok(plan) => display_plan_for(name@) == Some(plan),
            Err(SelectionError::UnknownDisplay { name: given }) => display_plan_for(name@) is None
                && given@ == name@,
            Err(SelectionError::UnknownAudioSource { .. }) => false,
        },
{
    if is_named(name, "oled") {
        Ok(SetupPlan::WithFallback { primary: DisplayKind::Oled, backup: DisplayKind::Terminal })
    } else if is_named(name, "bars") {
        Ok(SetupPlan::WithFallback { primary: DisplayKind::TerminalBars, backup: DisplayKind::Terminal })
    } else if is_named(name, "terminal") {
        Ok(SetupPlan::Single(DisplayKind::Terminal))
    } else {
        Err(SelectionError::UnknownDisplay { name: name.to_owned() })
    }
}

/// The names that select an audio source are exactly "mic" and "wav", and
/// those that select a display exactly "oled", "bars" and "terminal": the
/// same names the command line accepts. "mic" brings up the microphone and
/// falls back to the WAV file, "wav" the WAV file alone; "oled" and "bars"
/// bring up the OLED screen and the terminal bars, each falling back to the
/// plain terminal, and "terminal" the plain terminal alone. Every fallback
/// is a different device from the one it replaces, and is itself a device
/// that can be chosen on its own.
pub proof fn lemma_plans_match_names(name: Seq<char>)
    ensures
        audio_plan_for(name) is Some <==> (name == "mic"@ || name == "wav"@),
        display_plan_for(name) is Some <==> (name == "oled"@ || name == "bars"@ || name
            == "terminal"@),
        name == "mic"@ ==> audio_plan_for(name) == Some(
            SetupPlan::WithFallback { primary: AudioSourceKind::Microphone, backup: AudioSourceKind::Wav },
        ),
        name == "wav"@ ==> audio_plan_for(name) == Some(SetupPlan::Single(AudioSourceKind::Wav)),
        name == "oled"@ ==> display_plan_for(name) == Some(
            SetupPlan::WithFallback { primary: DisplayKind::Oled, backup: DisplayKind::Terminal },
        ),
        name == "bars"@ ==> display_plan_for(name) == Some(
            SetupPlan::WithFallback { primary: DisplayKind::TerminalBars, backup: DisplayKind::Terminal },
        ),
        name == "terminal"@ ==> display_plan_for(name) == Some(SetupPlan::Single(DisplayKind::Terminal)),
        audio_plan_for(name) matches Some(SetupPlan::WithFallback { primary, backup }) ==> primary
            != backup && audio_plan_for("wav"@) == Some(SetupPlan::Single(backup)),
        display_plan_for(name) matches Some(SetupPlan::WithFallback { primary, backup }) ==> primary
            != backup && display_plan_for("terminal"@) == Some(SetupPlan::Single(backup)),
{
    reveal_strlit("mic");
    reveal_strlit("wav");
    reveal_strlit("oled");
    reveal_strlit("bars");
    reveal_strlit("terminal");
    assert("mic"@[0] == 'm' && "wav"@[0] == 'w');
    assert("oled"@[0] == 'o' && "bars"@[0] == 'b' && "terminal"@[0] == 't');
}

impl SelectionError {
    /// The message shown to the user for this error.
    pub open spec fn spec_message(&self) -> Seq<char> {
        match self {
            SelectionError::UnknownAudioSource { name } => "Unknown audio source '"@ + name@ + "'"@,
            SelectionError::UnknownDisplay { name } => "Unknown display '"@ + name@ + "'"@,
        }
    }

    /// The message shown to the user for this error.
    pub fn message(&self) -> (text: String)
        ensures
            text@ == self.spec_message(),
    {
        let mut text = String::new();
        match self {
            SelectionError::UnknownAudioSource { name } => {
                text.append("Unknown audio source '");
                text.append(name.as_str());
            },
            SelectionError::UnknownDisplay { name } => {
                text.append("Unknown display '");
                text.append(name.as_str());
            },
        }
        text.append("'");
        text
    }
}

/// The message of an unknown name shows that name, between quotes, at its
/// end.
pub proof fn lemma_selection_message_names_the_name(err: SelectionError)
    ensures
        err matches SelectionError::UnknownAudioSource { name } ==> err.spec_message().len() >= name@.len()
            + 2 && err.spec_message().subrange(
            err.spec_message().len() - name@.len() - 1,
            err.spec_message().len() - 1,
        ) == name@ && err.spec_message().last() == '\'',
        err matches SelectionError::UnknownDisplay { name } ==> err.spec_message().len() >= name@.len()
            + 2 && err.spec_message().subrange(
            err.spec_message().len() - name@.len() - 1,
            err.spec_message().len() - 1,
        ) == name@ && err.spec_message().last() == '\'',
{
    reveal_strlit("'");
    reveal_strlit("Unknown audio source '");
    reveal_strlit("Unknown display '");
    let m = err.spec_message();
    match err {
        SelectionError::UnknownAudioSource { name } => {
            assert(m.subrange(m.len() - name@.len() - 1, m.len() - 1) =~= name@);
        },
        SelectionError::UnknownDisplay { name } => {
            assert(m.subrange(m.len() - name@.len() - 1, m.len() - 1) =~= name@);
        },
    }
}

} // verus!
