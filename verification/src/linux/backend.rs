//! Which backend captures: the setting, the probes and the order in which they are made.

use crate::linux::error::{outcome, LinCapError};
use crate::text::{
    debug_format, debug_text, lower_ascii, optional_text, same_text, to_ascii_lowercase, trim,
    trimmed, trimmed_end, trimmed_start,
};
use vstd::prelude::*;

verus! {

/// The backend that the setting `SCAP_BACKEND` asks for.
#[derive(Clone, Copy, Debug, PartialEq, Eq, Structural)]
pub enum BackendPreference {
    Auto,
    PipeWire,
    X11,
}

/// A backend for video.
#[derive(Clone, Copy, Debug, PartialEq, Eq, Structural)]
pub enum Backend {
    PipeWire,
    X11,
}

/// The preference that a setting stands for, if it stands for one: white space around it and
/// the case of its letters do not matter, and nothing in it leaves the choice open.
pub open spec fn preference_of(value: Option<Seq<char>>) -> Option<BackendPreference> {
    match value {
        None => Some(BackendPreference::Auto),
        Some(text) => if trimmed(text).len() == 0 {
            Some(BackendPreference::Auto)
        } else if lower_ascii(trimmed(text)) == "pipewire"@ {
            Some(BackendPreference::PipeWire)
        } else if lower_ascii(trimmed(text)) == "x11"@ {
            Some(BackendPreference::X11)
        } else {
            None
        },
    }
}

/// The message for a setting that stands for no preference.
pub open spec fn invalid_setting_message(value: Option<Seq<char>>) -> Seq<char> {
    "invalid SCAP_BACKEND="@ + debug_text(trimmed(value->Some_0))
        + "; expected 'pipewire' or 'x11'"@
}

/// The error for a setting that stands for no preference, from what `{:?}` prints for it.
pub fn invalid_setting(printed: &str) -> (r: LinCapError)
    ensures
        r@ == "invalid SCAP_BACKEND="@ + printed@ + "; expected 'pipewire' or 'x11'"@,
{
    let mut message: String = "invalid SCAP_BACKEND=".to_owned();
    message.append(printed);
    message.append("; expected 'pipewire' or 'x11'");
    LinCapError::new(message)
}

/// Reads the setting `SCAP_BACKEND`.
pub fn backend_preference(value: Option<&str>) -> (r: Result<BackendPreference, LinCapError>)
    ensures
        outcome(r) == (match preference_of(optional_text(value)) {
            Some(preference) => Ok(preference),
            None => Err(invalid_setting_message(optional_text(value))),
        }),
{
    let text: &str = match value {
        None => {
            return Ok(BackendPreference::Auto);
        },
        Some(text) => trim(text),
    };
    if text.is_empty() {
        return Ok(BackendPreference::Auto);
    }
    let lower: String = to_ascii_lowercase(text);
    if same_text(lower.as_str(), "pipewire") {
        return Ok(BackendPreference::PipeWire);
    }
    if same_text(lower.as_str(), "x11") {
        return Ok(BackendPreference::X11);
    }
    Err(invalid_setting(debug_format(text).as_str()))
}

/// The backend that is taken where the choice is open: PipeWire where it is there, else X11
/// where that is there.
pub open spec fn automatic_choice(pipewire: bool, x11: bool) -> Option<BackendPreference> {
    if pipewire {
        Some(BackendPreference::PipeWire)
    } else if x11 {
        Some(BackendPreference::X11)
    } else {
        None
    }
}

/// The backend that is taken where the choice is open.
pub fn automatic_backend(pipewire: bool, x11: bool) -> (r: Option<BackendPreference>)
    ensures
        r == automatic_choice(pipewire, x11),
{
    if pipewire {
        Some(BackendPreference::PipeWire)
    } else if x11 {
        Some(BackendPreference::X11)
    } else {
        None
    }
}

/// How the question whether capture is supported goes on.
#[derive(Clone, Copy, Debug, PartialEq, Eq, Structural)]
pub enum SupportStep {
    ProbePipeWire,
    ProbeX11,
    Known(bool),
}

/// The next step towards knowing whether capture is supported, from the setting and the probes
/// made so far, each with whether it succeeded.
pub open spec fn support_step(
    preference: Option<BackendPreference>,
    pipewire: Option<bool>,
    x11: Option<bool>,
) -> SupportStep {
    match preference {
        None => SupportStep::Known(false),
        Some(BackendPreference::PipeWire) => match pipewire {
            None => SupportStep::ProbePipeWire,
            Some(usable) => SupportStep::Known(usable),
        },
        Some(BackendPreference::X11) => match x11 {
            None => SupportStep::ProbeX11,
            Some(usable) => SupportStep::Known(usable),
        },
        Some(BackendPreference::Auto) => match pipewire {
            None => SupportStep::ProbePipeWire,
            Some(true) => SupportStep::Known(true),
            Some(false) => match x11 {
                None => SupportStep::ProbeX11,
                Some(usable) => SupportStep::Known(usable),
            },
        },
    }
}

/// Whether capture is supported, or the probe that is needed next to know.
pub fn is_supported(value: Option<&str>, pipewire: Option<bool>, x11: Option<bool>) -> (r:
    SupportStep)
    ensures
        r == support_step(preference_of(optional_text(value)), pipewire, x11),
{
    let preference: BackendPreference = match backend_preference(value) {
        Ok(preference) => preference,
        Err(_) => {
            return SupportStep::Known(false);
        },
    };
    let ask_pipewire: bool = preference != BackendPreference::X11;
    let ask_x11: bool = preference != BackendPreference::PipeWire;
    if ask_pipewire {
        match pipewire {
            None => {
                return SupportStep::ProbePipeWire;
            },
            Some(usable) => {
                if usable || !ask_x11 {
                    return SupportStep::Known(usable);
                }
            },
        }
    }
    match x11 {
        None => SupportStep::ProbeX11,
        Some(usable) => SupportStep::Known(usable),
    }
}

/// Whether capture is permitted, or the probe that is needed next to know. A connection to an
/// X11 server is its own permission, and the portal asks when its session is made: capture is
/// permitted where it is supported.
pub fn has_permission(value: Option<&str>, pipewire: Option<bool>, x11: Option<bool>) -> (r:
    SupportStep)
    ensures
        r == support_step(preference_of(optional_text(value)), pipewire, x11),
{
    is_supported(value, pipewire, x11)
}

/// How the making of a capturer goes on.
#[derive(Clone, Copy, Debug, PartialEq, Eq, Structural)]
pub enum CreateStep {
    ProbePipeWire,
    OpenPipeWire,
    OpenX11,
    OpenAudio,
    Ready { backend: Backend, audio: bool },
}

/// What has been tried so far in the making of a capturer, and how it went.
#[derive(Debug)]
pub struct CreateProgress {
    pub pipewire_probe: Option<Result<(), LinCapError>>,
    pub pipewire: Option<Result<(), LinCapError>>,
    pub x11: Option<Result<(), LinCapError>>,
    pub audio: Option<Result<(), LinCapError>>,
}

/// The backend is opened if it was not tried, taken if it opened, and else its error is final.
pub open spec fn opened(
    attempt: Option<Result<(), LinCapError>>,
    open: CreateStep,
    backend: Backend,
) -> Result<CreateStep, Seq<char>> {
    match attempt {
        None => Ok(open),
        Some(Ok(())) => Ok(CreateStep::Ready { backend, audio: false }),
        Some(Err(error)) => Err(error@),
    }
}

/// The next step towards video. Where the choice is open, X11 is tried only after the probe of
/// PipeWire failed, and where X11 fails too, the error names both.
pub open spec fn video_step(preference: BackendPreference, progress: CreateProgress) -> Result<
    CreateStep,
    Seq<char>,
> {
    match preference {
        BackendPreference::PipeWire => opened(
            progress.pipewire,
            CreateStep::OpenPipeWire,
            Backend::PipeWire,
        ),
        BackendPreference::X11 => opened(progress.x11, CreateStep::OpenX11, Backend::X11),
        BackendPreference::Auto => match progress.pipewire_probe {
            None => Ok(CreateStep::ProbePipeWire),
            Some(Ok(())) => opened(
                progress.pipewire,
                CreateStep::OpenPipeWire,
                Backend::PipeWire,
            ),
            Some(Err(pipewire_error)) => match progress.x11 {
                Some(Err(x11_error)) => Err(
                    "no usable Linux capture backend; "@ + pipewire_error@ + "; "@ + x11_error@,
                ),
                _ => opened(progress.x11, CreateStep::OpenX11, Backend::X11),
            },
        },
    }
}

/// The next step towards a capturer: first video, then audio if it was asked for.
pub open spec fn create_step(
    value: Option<Seq<char>>,
    captures_audio: bool,
    progress: CreateProgress,
) -> Result<CreateStep, Seq<char>> {
    match preference_of(value) {
        None => Err(invalid_setting_message(value)),
        Some(preference) => match video_step(preference, progress) {
            Ok(CreateStep::Ready { backend, audio: _ }) => if !captures_audio {
                Ok(CreateStep::Ready { backend, audio: false })
            } else {
                match progress.audio {
                    None => Ok(CreateStep::OpenAudio),
                    Some(Ok(())) => Ok(CreateStep::Ready { backend, audio: true }),
                    Some(Err(error)) => Err(error@),
                }
            },
            other => other,
        },
    }
}

fn open_backend(
    attempt: &Option<Result<(), LinCapError>>,
    open: CreateStep,
    backend: Backend,
) -> (r: Result<CreateStep, LinCapError>)
    ensures
        outcome(r) == opened(*attempt, open, backend),
{
    match attempt {
        None => Ok(open),
        Some(Ok(())) => Ok(CreateStep::Ready { backend, audio: false }),
        Some(Err(error)) => Err(error.duplicate()),
    }
}

fn next_video_step(preference: BackendPreference, progress: &CreateProgress) -> (r: Result<
    CreateStep,
    LinCapError,
>)
    ensures
        outcome(r) == video_step(preference, *progress),
{
    match preference {
        BackendPreference::PipeWire => open_backend(
            &progress.pipewire,
            CreateStep::OpenPipeWire,
            Backend::PipeWire,
        ),
        BackendPreference::X11 => open_backend(&progress.x11, CreateStep::OpenX11, Backend::X11),
        BackendPreference::Auto => match &progress.pipewire_probe {
            None => Ok(CreateStep::ProbePipeWire),
            Some(Ok(())) => open_backend(
                &progress.pipewire,
                CreateStep::OpenPipeWire,
                Backend::PipeWire,
            ),
            Some(Err(pipewire_error)) => match &progress.x11 {
                Some(Err(x11_error)) => {
                    let mut message: String = "no usable Linux capture backend; ".to_owned();
                    message.append(pipewire_error.message());
                    message.append("; ");
                    message.append(x11_error.message());
                    Err(LinCapError::new(message))
                },
                _ => open_backend(&progress.x11, CreateStep::OpenX11, Backend::X11),
            },
        },
    }
}

/// What to do next to make a capturer, from the setting `SCAP_BACKEND`, whether audio is asked
/// for, and what has been tried so far.
pub fn create_capturer(value: Option<&str>, captures_audio: bool, progress: &CreateProgress) -> (r:
    Result<CreateStep, LinCapError>)
    ensures
        outcome(r) == create_step(optional_text(value), captures_audio, *progress),
{
    let preference: BackendPreference = match backend_preference(value) {
        Ok(preference) => preference,
        Err(error) => {
            return Err(error);
        },
    };
    match next_video_step(preference, progress) {
        Ok(CreateStep::Ready { backend, audio: _ }) => {
            if !captures_audio {
                return Ok(CreateStep::Ready { backend, audio: false });
            }
            match &progress.audio {
                None => Ok(CreateStep::OpenAudio),
                Some(Ok(())) => Ok(CreateStep::Ready { backend, audio: true }),
                Some(Err(error)) => Err(error.duplicate()),
            }
        },
        other => other,
    }
}

/// How the question for the size of the frames goes on.
#[derive(Debug)]
pub enum SizeStep {
    ProbePipeWire,
    AskX11,
    Known([u32; 2]),
}

/// The message for a size that is not known before the stream is negotiated.
pub open spec fn size_not_negotiated_message() -> Seq<char> {
    "PipeWire output dimensions are available after format negotiation"@
}

/// The next step towards the size of the frames, from the probe of PipeWire, if it was made,
/// and the answer of X11, if it was asked.
pub open spec fn size_step(
    value: Option<Seq<char>>,
    pipewire: Option<bool>,
    x11: Option<Result<[u32; 2], LinCapError>>,
) -> Result<SizeStep, Seq<char>> {
    match preference_of(value) {
        None => Err(invalid_setting_message(value)),
        Some(preference) => if preference == BackendPreference::PipeWire || (preference
            == BackendPreference::Auto && pipewire == Some(true)) {
            Err(size_not_negotiated_message())
        } else if preference == BackendPreference::Auto && pipewire is None {
            Ok(SizeStep::ProbePipeWire)
        } else {
            match x11 {
                None => Ok(SizeStep::AskX11),
                Some(Ok(size)) => Ok(SizeStep::Known(size)),
                Some(Err(error)) => Err(error@),
            }
        },
    }
}

/// The size of the frames before capture starts, or what is needed next to know it.
pub fn get_output_frame_size(
    value: Option<&str>,
    pipewire: Option<bool>,
    x11: Option<Result<[u32; 2], LinCapError>>,
) -> (r: Result<SizeStep, LinCapError>)
    ensures
        outcome(r) == size_step(optional_text(value), pipewire, x11),
{
    let preference: BackendPreference = match backend_preference(value) {
        Ok(preference) => preference,
        Err(error) => {
            return Err(error);
        },
    };
    let through_pipewire: bool = match preference {
        BackendPreference::PipeWire => true,
        BackendPreference::X11 => false,
        BackendPreference::Auto => match pipewire {
            None => {
                return Ok(SizeStep::ProbePipeWire);
            },
            Some(usable) => usable,
        },
    };
    if through_pipewire {
        return Err(
            LinCapError::from_text(
                "PipeWire output dimensions are available after format negotiation",
            ),
        );
    }
    match x11 {
        None => Ok(SizeStep::AskX11),
        Some(Ok(size)) => Ok(SizeStep::Known(size)),
        Some(Err(error)) => Err(error),
    }
}

/// White space around a setting and the case of its letters do not change what it stands for.
pub proof fn law_setting_is_lenient(text: Seq<char>)
    ensures
        preference_of(Some(trimmed(text))) == preference_of(Some(text)),
        preference_of(Some(lower_ascii(text))) == preference_of(Some(text)),
{
    lemma_trimmed_twice(text);
    lemma_lower_trims_alike(text);
    assert(lower_ascii(lower_ascii(trimmed(text))) =~= lower_ascii(trimmed(text)));
}

proof fn lemma_trimmed_end_shape(text: Seq<char>)
    ensures
        trimmed_end(text).len() <= text.len(),
        trimmed_end(text) == text.take(trimmed_end(text).len() as int),
        trimmed_end(trimmed_end(text)) == trimmed_end(text),
    decreases text.len(),
{
    if text.len() > 0 && crate::text::is_white_space(text.last()) {
        lemma_trimmed_end_shape(text.drop_last());
        let n = trimmed_end(text).len() as int;
        assert(text.drop_last().take(n) =~= text.take(n));
    } else {
        assert(text.take(text.len() as int) =~= text);
    }
}

proof fn lemma_trimmed_start_shape(text: Seq<char>)
    ensures
        trimmed_start(text).len() == 0 || !crate::text::is_white_space(
            trimmed_start(text).first(),
        ),
    decreases text.len(),
{
    if text.len() > 0 && crate::text::is_white_space(text.first()) {
        lemma_trimmed_start_shape(text.drop_first());
    }
}

proof fn lemma_trimmed_twice(text: Seq<char>)
    ensures
        trimmed(trimmed(text)) == trimmed(text),
{
    let start = trimmed_start(text);
    lemma_trimmed_start_shape(text);
    lemma_trimmed_end_shape(start);
    let both = trimmed_end(start);
    if both.len() > 0 {
        assert(both.first() == start.first());
    }
    assert(trimmed_start(both) == both);
}

proof fn lemma_lower_trims_alike(text: Seq<char>)
    ensures
        trimmed(lower_ascii(text)) == lower_ascii(trimmed(text)),
{
    lemma_lower_trims_start(text);
    lemma_lower_trims_end(trimmed_start(text));
}

proof fn lemma_lower_trims_start(text: Seq<char>)
    ensures
        trimmed_start(lower_ascii(text)) == lower_ascii(trimmed_start(text)),
    decreases text.len(),
{
    if text.len() > 0 && crate::text::is_white_space(text.first()) {
        lemma_lower_trims_start(text.drop_first());
        assert(lower_ascii(text).drop_first() =~= lower_ascii(text.drop_first()));
    }
}

proof fn lemma_lower_trims_end(text: Seq<char>)
    ensures
        trimmed_end(lower_ascii(text)) == lower_ascii(trimmed_end(text)),
    decreases text.len(),
{
    if text.len() > 0 && crate::text::is_white_space(text.last()) {
        lemma_lower_trims_end(text.drop_last());
        assert(lower_ascii(text).drop_last() =~= lower_ascii(text.drop_last()));
    }
}

/// With both probes made, capture is supported exactly where a backend that the setting allows
/// is usable.
pub proof fn law_support_needs_an_allowed_backend(value: Option<Seq<char>>, pipewire: bool, x11: bool)
    ensures
        support_step(preference_of(value), Some(pipewire), Some(x11)) == SupportStep::Known(
            match preference_of(value) {
                None => false,
                Some(BackendPreference::PipeWire) => pipewire,
                Some(BackendPreference::X11) => x11,
                Some(BackendPreference::Auto) => pipewire || x11,
            },
        ),
{
}

/// Every step asks for something that has not been tried, so the making of a capturer ends.
pub proof fn law_nothing_is_tried_twice(
    value: Option<Seq<char>>,
    captures_audio: bool,
    progress: CreateProgress,
)
    ensures
        match create_step(value, captures_audio, progress) {
            Ok(CreateStep::ProbePipeWire) => progress.pipewire_probe is None,
            Ok(CreateStep::OpenPipeWire) => progress.pipewire is None,
            Ok(CreateStep::OpenX11) => progress.x11 is None,
            Ok(CreateStep::OpenAudio) => progress.audio is None,
            _ => true,
        },
{
}

/// A setting that names a backend keeps the other one out of it.
pub proof fn law_named_backend_is_the_only_one(
    value: Option<Seq<char>>,
    captures_audio: bool,
    progress: CreateProgress,
)
    ensures
        preference_of(value) == Some(BackendPreference::PipeWire) ==> match create_step(
            value,
            captures_audio,
            progress,
        ) {
            Ok(CreateStep::ProbePipeWire) => false,
            Ok(CreateStep::OpenX11) => false,
            Ok(CreateStep::Ready { backend, audio: _ }) => backend == Backend::PipeWire,
            _ => true,
        },
        preference_of(value) == Some(BackendPreference::X11) ==> match create_step(
            value,
            captures_audio,
            progress,
        ) {
            Ok(CreateStep::ProbePipeWire) => false,
            Ok(CreateStep::OpenPipeWire) => false,
            Ok(CreateStep::Ready { backend, audio: _ }) => backend == Backend::X11,
            _ => true,
        },
{
}

/// Where the choice is open, PipeWire comes first: X11 is opened only after the probe of
/// PipeWire failed, and PipeWire is opened only after its probe succeeded.
pub proof fn law_pipewire_comes_first(
    value: Option<Seq<char>>,
    captures_audio: bool,
    progress: CreateProgress,
)
    requires
        preference_of(value) == Some(BackendPreference::Auto),
    ensures
        create_step(value, captures_audio, progress) == Ok::<CreateStep, Seq<char>>(
            CreateStep::OpenX11,
        ) ==> progress.pipewire_probe matches Some(Err(_)),
        create_step(value, captures_audio, progress) == Ok::<CreateStep, Seq<char>>(
            CreateStep::OpenPipeWire,
        ) ==> progress.pipewire_probe matches Some(Ok(_)),
{
}

/// Audio is opened only where it was asked for and video is there, and a capturer that is ready
/// has audio exactly where it was asked for.
pub proof fn law_audio_follows_video(
    value: Option<Seq<char>>,
    captures_audio: bool,
    progress: CreateProgress,
)
    ensures
        create_step(value, captures_audio, progress) == Ok::<CreateStep, Seq<char>>(
            CreateStep::OpenAudio,
        ) ==> captures_audio && (progress.pipewire matches Some(Ok(_)) || progress.x11 matches Some(
            Ok(_),
        )),
        create_step(value, captures_audio, progress) matches Ok(
            CreateStep::Ready { backend: _, audio },
        ) ==> audio == captures_audio && (audio ==> progress.audio matches Some(
            Ok(_),
        )) && (progress.pipewire matches Some(Ok(_)) || progress.x11 matches Some(Ok(_))),
{
}

/// Where the choice is open, support and the backend of a capturer follow the one order of
/// choice: there is support exactly where that order has a backend to take, and a capturer that
/// is ready runs on the backend that it takes.
pub proof fn law_choice_is_stable(
    value: Option<Seq<char>>,
    captures_audio: bool,
    progress: CreateProgress,
    pipewire: bool,
    x11: bool,
)
    requires
        preference_of(value) == Some(BackendPreference::Auto),
    ensures
        support_step(preference_of(value), Some(pipewire), Some(x11)) == SupportStep::Known(
            automatic_choice(pipewire, x11) is Some,
        ),
        create_step(value, captures_audio, progress) matches Ok(
            CreateStep::Ready { backend, audio: _ },
        ) ==> automatic_choice(
            progress.pipewire_probe matches Some(Ok(_)),
            progress.x11 matches Some(Ok(_)),
        ) == Some(
            match backend {
                Backend::PipeWire => BackendPreference::PipeWire,
                Backend::X11 => BackendPreference::X11,
            },
        ),
{
}

/// Every question asks for a probe or an answer that is not there yet.
pub proof fn law_questions_are_asked_once(
    value: Option<Seq<char>>,
    pipewire: Option<bool>,
    x11: Option<bool>,
    x11_size: Option<Result<[u32; 2], LinCapError>>,
)
    ensures
        match support_step(preference_of(value), pipewire, x11) {
            SupportStep::ProbePipeWire => pipewire is None,
            SupportStep::ProbeX11 => x11 is None,
            SupportStep::Known(_) => true,
        },
        match size_step(value, pipewire, x11_size) {
            Ok(SizeStep::ProbePipeWire) => pipewire is None,
            Ok(SizeStep::AskX11) => x11_size is None,
            _ => true,
        },
{
}

/// A setting stands for PipeWire exactly where it says `pipewire` and for X11 exactly where it says
/// `x11`, apart from case and white space; it leaves the choice open exactly where there is none or
/// nothing in it; and it is invalid exactly where it says anything else.
pub proof fn law_settings_are_read_by_their_words(value: Option<Seq<char>>)
    ensures
        value is None ==> preference_of(value) == Some(BackendPreference::Auto),
        value matches Some(text) ==> {
            &&& preference_of(value) == Some(BackendPreference::Auto) <==> trimmed(text).len() == 0
            &&& preference_of(value) == Some(BackendPreference::PipeWire) <==> lower_ascii(
                trimmed(text),
            ) == "pipewire"@
            &&& preference_of(value) == Some(BackendPreference::X11) <==> lower_ascii(
                trimmed(text),
            ) == "x11"@
            &&& preference_of(value) is None <==> trimmed(text).len() > 0 && lower_ascii(
                trimmed(text),
            ) != "pipewire"@ && lower_ascii(trimmed(text)) != "x11"@
            &&& invalid_setting_message(value) == "invalid SCAP_BACKEND="@ + debug_text(
                trimmed(text),
            ) + "; expected 'pipewire' or 'x11'"@
        },
{
    reveal_strlit("pipewire");
    reveal_strlit("x11");
    assert("pipewire"@.len() == 8);
    assert("x11"@.len() == 3);
}

/// Once the backend that is chosen has opened, the making of a capturer is about audio alone, and
/// the same beside either backend: without audio it is ready; else audio is opened where that was
/// not tried, the capturer is ready with audio where it opened, and where it did not, its error is
/// final.
pub proof fn law_audio_is_opened_beside_either_backend(
    value: Option<Seq<char>>,
    captures_audio: bool,
    progress: CreateProgress,
    backend: Backend,
)
    requires
        match preference_of(value) {
            None => false,
            Some(BackendPreference::PipeWire) => backend == Backend::PipeWire
                && progress.pipewire matches Some(Ok(_)),
            Some(BackendPreference::X11) => backend == Backend::X11 && progress.x11 matches Some(
                Ok(_),
            ),
            Some(BackendPreference::Auto) => match progress.pipewire_probe {
                None => false,
                Some(Ok(_)) => backend == Backend::PipeWire && progress.pipewire matches Some(
                    Ok(_),
                ),
                Some(Err(_)) => backend == Backend::X11 && progress.x11 matches Some(Ok(_)),
            },
        },
    ensures
        !captures_audio ==> create_step(value, captures_audio, progress) == Ok::<
            CreateStep,
            Seq<char>,
        >(CreateStep::Ready { backend, audio: false }),
        captures_audio ==> match progress.audio {
            None => create_step(value, captures_audio, progress) == Ok::<CreateStep, Seq<char>>(
                CreateStep::OpenAudio,
            ),
            Some(Ok(_)) => create_step(value, captures_audio, progress) == Ok::<
                CreateStep,
                Seq<char>,
            >(CreateStep::Ready { backend, audio: true }),
            Some(Err(error)) => create_step(value, captures_audio, progress) == Err::<
                CreateStep,
                Seq<char>,
            >(error@),
        },
{
}

/// Before video is there, the making of a capturer is about video alone, with or without audio: an
/// invalid setting is an error; a backend that is named is opened; and where the choice is open,
/// PipeWire is probed, and opened where the probe succeeded, and else X11 is. The error of a
/// backend that did not open is final, and where X11 came after a failed probe, it names both.
pub proof fn law_video_comes_first(
    value: Option<Seq<char>>,
    captures_audio: bool,
    progress: CreateProgress,
)
    ensures
        ({
            let step = create_step(value, captures_audio, progress);
            let invalid = invalid_setting_message(value);
            &&& preference_of(value) is None ==> step == Err::<CreateStep, Seq<char>>(invalid)
            &&& preference_of(value) == Some(BackendPreference::PipeWire) ==> {
                &&& progress.pipewire is None ==> step == Ok::<CreateStep, Seq<char>>(
                    CreateStep::OpenPipeWire,
                )
                &&& progress.pipewire matches Some(Err(error)) ==> step == Err::<
                    CreateStep,
                    Seq<char>,
                >(error@)
            }
            &&& preference_of(value) == Some(BackendPreference::X11) ==> {
                &&& progress.x11 is None ==> step == Ok::<CreateStep, Seq<char>>(
                    CreateStep::OpenX11,
                )
                &&& progress.x11 matches Some(Err(error)) ==> step == Err::<CreateStep, Seq<char>>(
                    error@,
                )
            }
            &&& preference_of(value) == Some(BackendPreference::Auto) ==> {
                &&& progress.pipewire_probe is None ==> step == Ok::<CreateStep, Seq<char>>(
                    CreateStep::ProbePipeWire,
                )
                &&& progress.pipewire_probe matches Some(Ok(_)) ==> {
                    &&& progress.pipewire is None ==> step == Ok::<CreateStep, Seq<char>>(
                        CreateStep::OpenPipeWire,
                    )
                    &&& progress.pipewire matches Some(Err(error)) ==> step == Err::<
                        CreateStep,
                        Seq<char>,
                    >(error@)
                }
                &&& progress.pipewire_probe matches Some(Err(probe)) ==> {
                    &&& progress.x11 is None ==> step == Ok::<CreateStep, Seq<char>>(
                        CreateStep::OpenX11,
                    )
                    &&& progress.x11 matches Some(Err(error)) ==> step == Err::<
                        CreateStep,
                        Seq<char>,
                    >("no usable Linux capture backend; "@ + probe@ + "; "@ + error@)
                }
            }
        }),
{
}

/// The making of a capturer fails only for a reason: an invalid setting, a backend for video that
/// did not open, or audio that was asked for and did not open.
pub proof fn law_making_fails_for_a_reason(
    value: Option<Seq<char>>,
    captures_audio: bool,
    progress: CreateProgress,
)
    requires
        create_step(value, captures_audio, progress) is Err,
    ensures
        ({
            let message = create_step(value, captures_audio, progress)->Err_0;
            ||| preference_of(value) is None && message == "invalid SCAP_BACKEND="@ + debug_text(
                trimmed(value->Some_0),
            ) + "; expected 'pipewire' or 'x11'"@
            ||| progress.pipewire matches Some(Err(error)) && message == error@
            ||| progress.x11 matches Some(Err(error)) && (message == error@ || (
            progress.pipewire_probe matches Some(Err(probe)) && message
                == "no usable Linux capture backend; "@ + probe@ + "; "@ + error@))
            ||| captures_audio && (progress.audio matches Some(Err(error)) && message == error@)
        }),
{
}

/// The question for support is settled by the first probe that settles it: with a backend named,
/// by its own; with the choice open, by that of PipeWire where it succeeded, and else by that of
/// X11. An invalid setting settles it without a probe.
pub proof fn law_support_is_settled_by_the_first_probe(
    value: Option<Seq<char>>,
    pipewire: Option<bool>,
    x11: Option<bool>,
)
    ensures
        match preference_of(value) {
            None => support_step(preference_of(value), pipewire, x11) == SupportStep::Known(false),
            Some(BackendPreference::PipeWire) => support_step(preference_of(value), pipewire, x11)
                == match pipewire {
                None => SupportStep::ProbePipeWire,
                Some(usable) => SupportStep::Known(usable),
            },
            Some(BackendPreference::X11) => support_step(preference_of(value), pipewire, x11)
                == match x11 {
                None => SupportStep::ProbeX11,
                Some(usable) => SupportStep::Known(usable),
            },
            Some(BackendPreference::Auto) => support_step(preference_of(value), pipewire, x11)
                == match (pipewire, x11) {
                (None, _) => SupportStep::ProbePipeWire,
                (Some(true), _) => SupportStep::Known(true),
                (Some(false), None) => SupportStep::ProbeX11,
                (Some(false), Some(usable)) => SupportStep::Known(usable),
            },
        },
{
}

/// The size of the frames is X11's answer, wherever X11 is the backend: where it is named, or the
/// choice is open and PipeWire is not usable. On PipeWire it is an error to ask.
pub proof fn law_size_is_the_answer_of_x11(
    value: Option<Seq<char>>,
    pipewire: Option<bool>,
    x11: Option<Result<[u32; 2], LinCapError>>,
)
    ensures
        ({
            let step = size_step(value, pipewire, x11);
            let late = "PipeWire output dimensions are available after format negotiation"@;
            let invalid = invalid_setting_message(value);
            let on_x11 = preference_of(value) == Some(BackendPreference::X11) || preference_of(
                value,
            ) == Some(BackendPreference::Auto) && pipewire == Some(false);
            &&& preference_of(value) is None ==> step == Err::<SizeStep, Seq<char>>(invalid)
            &&& preference_of(value) == Some(BackendPreference::PipeWire) ==> step == Err::<
                SizeStep,
                Seq<char>,
            >(late)
            &&& preference_of(value) == Some(BackendPreference::Auto) && pipewire == Some(true)
                ==> step == Err::<SizeStep, Seq<char>>(late)
            &&& preference_of(value) == Some(BackendPreference::Auto) && pipewire is None ==> step
                == Ok::<SizeStep, Seq<char>>(SizeStep::ProbePipeWire)
            &&& on_x11 ==> match x11 {
                None => step == Ok::<SizeStep, Seq<char>>(SizeStep::AskX11),
                Some(Ok(size)) => step == Ok::<SizeStep, Seq<char>>(SizeStep::Known(size)),
                Some(Err(error)) => step == Err::<SizeStep, Seq<char>>(error@),
            }
        }),
{
}

/// Where the choice is open, PipeWire is taken exactly where it is there, X11 exactly where it
/// alone is there, and nothing exactly where neither is.
pub proof fn law_pipewire_is_preferred(pipewire: bool, x11: bool)
    ensures
        automatic_choice(pipewire, x11) == Some(BackendPreference::PipeWire) <==> pipewire,
        automatic_choice(pipewire, x11) == Some(BackendPreference::X11) <==> !pipewire && x11,
        automatic_choice(pipewire, x11) is None <==> !pipewire && !x11,
        automatic_choice(pipewire, x11) != Some(BackendPreference::Auto),
{
}

} // verus!
