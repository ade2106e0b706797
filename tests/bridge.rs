use deno_webview::bridge::{
    begin, finish, flag, prepare_create, register, Command, CreateRequest, Failure, NativeCall,
    NativeWindow, Outcome, Step,
};
use deno_webview::registry::Registry;
use deno_webview::text::has_nul;

fn request(title: &str, url: &str) -> CreateRequest {
    CreateRequest {
        title: title.to_string(),
        url: url.to_string(),
        width: 320,
        height: 240,
        resizable: true,
        debug: false,
        frameless: false,
    }
}

fn with_window(handle: u64) -> (Registry<u64>, u32) {
    let mut reg: Registry<u64> = Registry::new();
    let id = match register(&mut reg, handle) {
        Ok(Outcome::Created { id }) => id,
        other => panic!("unexpected reply {:?}", other),
    };
    (reg, id)
}

#[test]
fn create_gives_native_arguments_and_first_id() {
    let mut reg: Registry<u64> = Registry::new();
    let window = prepare_create(&reg, request("T", "U")).unwrap();
    assert_eq!(
        window,
        NativeWindow {
            title: "T".to_string(),
            url: "U".to_string(),
            width: 320,
            height: 240,
            resizable: 1,
            debug: 0,
            frameless: 0,
        }
    );
    assert_eq!(register(&mut reg, 9), Ok(Outcome::Created { id: 0 }));
    assert_eq!(reg.get(0), Some(9));
}

#[test]
fn create_refuses_nul_in_title_or_url() {
    let reg: Registry<u64> = Registry::new();
    assert_eq!(prepare_create(&reg, request("a\0b", "U")), Err(Failure::NulInText));
    assert_eq!(prepare_create(&reg, request("T", "\0")), Err(Failure::NulInText));
}

#[test]
fn set_title_after_create_carries_new_title() {
    let (mut reg, id) = with_window(5);
    let step = begin(&mut reg, id, Command::SetTitle { title: "T2".to_string() });
    assert_eq!(
        step,
        Step::Invoke { handle: 5, call: NativeCall::SetTitle { title: "T2".to_string() } }
    );
    assert_eq!(finish(&NativeCall::SetTitle { title: "T2".to_string() }, 0), Ok(Outcome::Empty));
    assert!(reg.contains(id));
}

#[test]
fn unknown_id_is_refused_for_every_operation() {
    let (mut reg, _) = with_window(5);
    let commands = vec![
        Command::Exit,
        Command::Eval { js: "1+1;".to_string() },
        Command::SetColor { r: 1, g: 2, b: 3, a: 4 },
        Command::SetTitle { title: "x".to_string() },
        Command::SetFullscreen { fullscreen: true },
        Command::Loop { blocking: 0 },
        Command::GetUserData,
    ];
    for cmd in commands {
        assert_eq!(begin(&mut reg, 7, cmd), Step::Answer(Err(Failure::NotFound { id: 7 })));
    }
    assert_eq!(reg.get(0), Some(5));
}

#[test]
fn ids_increase_across_exits() {
    let mut reg: Registry<u64> = Registry::new();
    assert_eq!(register(&mut reg, 1), Ok(Outcome::Created { id: 0 }));
    assert_eq!(
        begin(&mut reg, 0, Command::Exit),
        Step::Invoke { handle: 1, call: NativeCall::Exit }
    );
    assert_eq!(register(&mut reg, 2), Ok(Outcome::Created { id: 1 }));
    assert_eq!(register(&mut reg, 3), Ok(Outcome::Created { id: 2 }));
    assert!(!reg.contains(0));
    assert_eq!(reg.get(1), Some(2));
}

#[test]
fn loop_step_returns_native_code() {
    let (mut reg, id) = with_window(5);
    let step = begin(&mut reg, id, Command::Loop { blocking: 0 });
    assert_eq!(step, Step::Invoke { handle: 5, call: NativeCall::Loop { blocking: 0 } });
    assert_eq!(finish(&NativeCall::Loop { blocking: 0 }, 0), Ok(Outcome::Code { code: 0 }));
    assert_eq!(finish(&NativeCall::Loop { blocking: 1 }, 1), Ok(Outcome::Code { code: 1 }));
    assert_eq!(finish(&NativeCall::Loop { blocking: 0 }, -3), Ok(Outcome::Code { code: -3 }));
}

#[test]
fn eval_succeeds_on_zero_status_and_fails_otherwise() {
    let (mut reg, id) = with_window(5);
    let step = begin(&mut reg, id, Command::Eval { js: "1+1;".to_string() });
    assert_eq!(
        step,
        Step::Invoke { handle: 5, call: NativeCall::Eval { js: "1+1;".to_string() } }
    );
    let call = NativeCall::Eval { js: "1+1;".to_string() };
    assert_eq!(finish(&call, 0), Ok(Outcome::Empty));
    assert_eq!(finish(&call, 1), Err(Failure::ScriptRejected));
    assert_eq!(Failure::ScriptRejected.message(), "could not evaluate script");
}

#[test]
fn eval_and_set_title_refuse_nul() {
    let (mut reg, id) = with_window(5);
    assert_eq!(
        begin(&mut reg, id, Command::Eval { js: "a\0".to_string() }),
        Step::Answer(Err(Failure::NulInText))
    );
    assert_eq!(
        begin(&mut reg, id, Command::SetTitle { title: "\0".to_string() }),
        Step::Answer(Err(Failure::NulInText))
    );
    assert!(reg.contains(id));
}

#[test]
fn exit_twice_reports_not_found_the_second_time() {
    let (mut reg, id) = with_window(5);
    assert_eq!(begin(&mut reg, id, Command::Exit), Step::Invoke { handle: 5, call: NativeCall::Exit });
    assert_eq!(begin(&mut reg, id, Command::Exit), Step::Answer(Err(Failure::NotFound { id })));
    assert_eq!(
        Failure::NotFound { id }.message(),
        "Could not find instance of id 0"
    );
}

#[test]
fn color_fullscreen_and_user_data() {
    let (mut reg, id) = with_window(5);
    assert_eq!(
        begin(&mut reg, id, Command::SetColor { r: 10, g: 20, b: 30, a: 255 }),
        Step::Invoke { handle: 5, call: NativeCall::SetColor { r: 10, g: 20, b: 30, a: 255 } }
    );
    assert_eq!(
        begin(&mut reg, id, Command::SetFullscreen { fullscreen: true }),
        Step::Invoke { handle: 5, call: NativeCall::SetFullscreen { fullscreen: 1 } }
    );
    assert_eq!(
        begin(&mut reg, id, Command::SetFullscreen { fullscreen: false }),
        Step::Invoke { handle: 5, call: NativeCall::SetFullscreen { fullscreen: 0 } }
    );
    assert_eq!(begin(&mut reg, id, Command::GetUserData), Step::Answer(Ok(Outcome::Empty)));
    assert_eq!(finish(&NativeCall::Exit, 7), Ok(Outcome::Empty));
}

#[test]
fn failure_messages() {
    assert_eq!(
        Failure::NotFound { id: 4294967295 }.message(),
        "Could not find instance of id 4294967295"
    );
    assert_eq!(Failure::NotFound { id: 12 }.message(), "Could not find instance of id 12");
    assert_eq!(Failure::NulInText.message(), "text holds a null character");
    assert_eq!(Failure::IdsExhausted.message(), "no instance identifiers are left");
}

#[test]
fn nul_detection_and_flags() {
    assert!(!has_nul(""));
    assert!(!has_nul("héllo"));
    assert!(has_nul("\0"));
    assert!(has_nul("ab\0"));
    assert_eq!(flag(true), 1);
    assert_eq!(flag(false), 0);
}
