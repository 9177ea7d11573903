use scap::linux::backend::{
    automatic_backend, backend_preference, create_capturer, get_output_frame_size, has_permission,
    is_supported, Backend, BackendPreference, CreateProgress, CreateStep, SizeStep, SupportStep,
};
use scap::linux::error::LinCapError;
use scap::utils;

type Attempt = Option<Result<(), LinCapError>>;

fn failed(text: &str) -> Attempt {
    Some(Err(LinCapError::from_text(text)))
}

fn progress(pipewire_probe: Attempt, pipewire: Attempt, x11: Attempt, audio: Attempt) -> CreateProgress {
    CreateProgress { pipewire_probe, pipewire, x11, audio }
}

fn step(value: Option<&str>, audio: bool, progress: CreateProgress) -> CreateStep {
    create_capturer(value, audio, &progress).unwrap()
}

fn error(value: Option<&str>, audio: bool, progress: CreateProgress) -> String {
    create_capturer(value, audio, &progress)
        .unwrap_err()
        .message()
        .to_string()
}

#[test]
fn parses_explicit_backend_names() {
    assert_eq!(
        backend_preference(Some("pipewire")).unwrap(),
        BackendPreference::PipeWire
    );
    assert_eq!(
        backend_preference(Some("X11")).unwrap(),
        BackendPreference::X11
    );
    assert!(backend_preference(Some("invalid")).is_err());
}

#[test]
fn automatic_selection_order_is_stable() {
    assert_eq!(automatic_backend(true, true), Some(BackendPreference::PipeWire));
    assert_eq!(automatic_backend(false, true), Some(BackendPreference::X11));
    assert_eq!(automatic_backend(false, false), None);
    assert_eq!(automatic_backend(true, false), Some(BackendPreference::PipeWire));
}

#[test]
fn setting_is_lenient() {
    for open in [None, Some(""), Some("  \t\n"), Some("\u{a0}\u{3000}")] {
        assert_eq!(backend_preference(open).unwrap(), BackendPreference::Auto);
    }
    assert_eq!(
        backend_preference(Some("\u{2003} PipeWIRE\n")).unwrap(),
        BackendPreference::PipeWire
    );
    assert_eq!(backend_preference(Some(" x11 ")).unwrap(), BackendPreference::X11);
}

#[test]
fn invalid_setting_is_quoted_without_its_white_space() {
    let error = backend_preference(Some("  Way\"land ")).unwrap_err();
    assert_eq!(
        error.message(),
        "invalid SCAP_BACKEND=\"Way\\\"land\"; expected 'pipewire' or 'x11'"
    );
    assert!(backend_preference(Some("x 11")).is_err());
    assert!(backend_preference(Some("auto")).is_err());
}

#[test]
fn support_needs_an_allowed_backend() {
    for ask in [is_supported, has_permission, utils::is_supported, utils::has_permission] {
        assert_eq!(ask(None, None, None), SupportStep::ProbePipeWire);
        assert_eq!(ask(None, Some(true), None), SupportStep::Known(true));
        assert_eq!(ask(None, Some(false), None), SupportStep::ProbeX11);
        assert_eq!(ask(None, Some(false), Some(true)), SupportStep::Known(true));
        assert_eq!(ask(None, Some(false), Some(false)), SupportStep::Known(false));
        assert_eq!(ask(Some("pipewire"), None, Some(true)), SupportStep::ProbePipeWire);
        assert_eq!(
            ask(Some("pipewire"), Some(false), Some(true)),
            SupportStep::Known(false)
        );
        assert_eq!(ask(Some("x11"), Some(true), None), SupportStep::ProbeX11);
        assert_eq!(ask(Some("x11"), Some(true), Some(false)), SupportStep::Known(false));
        assert_eq!(ask(Some("?"), Some(true), Some(true)), SupportStep::Known(false));
    }
}

#[test]
fn named_backend_is_opened_without_a_probe() {
    assert_eq!(
        step(Some("pipewire"), false, progress(None, None, None, None)),
        CreateStep::OpenPipeWire
    );
    assert_eq!(
        step(Some("pipewire"), false, progress(None, Some(Ok(())), None, None)),
        CreateStep::Ready { backend: Backend::PipeWire, audio: false }
    );
    assert_eq!(
        error(Some("pipewire"), false, progress(None, failed("no bus"), None, None)),
        "no bus"
    );
    assert_eq!(
        step(Some("X11"), false, progress(None, None, None, None)),
        CreateStep::OpenX11
    );
    assert_eq!(
        error(Some("x11"), false, progress(None, None, failed("no display"), None)),
        "no display"
    );
}

#[test]
fn open_choice_falls_back_after_the_probe_only() {
    assert_eq!(
        step(None, false, progress(None, None, None, None)),
        CreateStep::ProbePipeWire
    );
    assert_eq!(
        step(None, false, progress(Some(Ok(())), None, None, None)),
        CreateStep::OpenPipeWire
    );
    assert_eq!(
        error(None, false, progress(Some(Ok(())), failed("denied"), None, None)),
        "denied"
    );
    assert_eq!(
        step(None, false, progress(failed("no portal"), None, None, None)),
        CreateStep::OpenX11
    );
    assert_eq!(
        step(None, false, progress(failed("no portal"), None, Some(Ok(())), None)),
        CreateStep::Ready { backend: Backend::X11, audio: false }
    );
    assert_eq!(
        error(None, false, progress(failed("no portal"), None, failed("no display"), None)),
        "no usable Linux capture backend; no portal; no display"
    );
}

#[test]
fn audio_is_opened_after_video() {
    assert_eq!(
        step(Some("x11"), true, progress(None, None, None, None)),
        CreateStep::OpenX11
    );
    assert_eq!(
        step(Some("x11"), true, progress(None, None, Some(Ok(())), None)),
        CreateStep::OpenAudio
    );
    assert_eq!(
        step(Some("x11"), true, progress(None, None, Some(Ok(())), Some(Ok(())))),
        CreateStep::Ready { backend: Backend::X11, audio: true }
    );
    assert_eq!(
        error(Some("x11"), true, progress(None, None, Some(Ok(())), failed("no pulse"))),
        "no pulse"
    );
    assert_eq!(
        error(Some("?"), true, progress(None, None, None, None)),
        "invalid SCAP_BACKEND=\"?\"; expected 'pipewire' or 'x11'"
    );
}

#[test]
fn size_is_known_before_capture_on_x11_only() {
    let late = "PipeWire output dimensions are available after format negotiation";
    let message = |value: Option<&str>, pipewire: Option<bool>| {
        get_output_frame_size(value, pipewire, Some(Ok([1, 2])))
            .unwrap_err()
            .message()
            .to_string()
    };
    assert_eq!(message(Some("pipewire"), None), late);
    assert_eq!(message(None, Some(true)), late);
    assert_eq!(
        message(Some("?"), None),
        "invalid SCAP_BACKEND=\"?\"; expected 'pipewire' or 'x11'"
    );
    assert!(matches!(
        get_output_frame_size(None, None, None),
        Ok(SizeStep::ProbePipeWire)
    ));
    assert!(matches!(
        get_output_frame_size(None, Some(false), None),
        Ok(SizeStep::AskX11)
    ));
    assert!(matches!(
        get_output_frame_size(Some("x11"), Some(true), None),
        Ok(SizeStep::AskX11)
    ));
    assert!(matches!(
        get_output_frame_size(Some("x11"), None, Some(Ok([640, 480]))),
        Ok(SizeStep::Known([640, 480]))
    ));
    let refused = get_output_frame_size(
        Some("x11"),
        None,
        Some(Err(LinCapError::from_text("no screen"))),
    );
    assert_eq!(refused.unwrap_err().message(), "no screen");
}
