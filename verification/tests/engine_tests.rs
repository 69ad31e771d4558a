use spy_engine::WindowHandle;
use spy_engine::engine::{
    EngineState, begin_tick, get_spy_status, register_sink, send_application_message, start_spy,
};
use spy_engine::model::Application;

fn synthetic_record(n: u32) -> Application {
    Application::from_parts(
        WindowHandle { raw: 1 },
        format!("window {}", n),
        String::new(),
        None,
        None,
    )
    .unwrap()
}

#[test]
fn test_sink_replacement() {
    let mut state = EngineState::new();
    register_sink(&mut state, 1);
    register_sink(&mut state, 2);
    let d = send_application_message(&state, synthetic_record(0)).unwrap();
    assert_eq!(d.sink, 2);
    let d = send_application_message(&state, synthetic_record(1)).unwrap();
    assert_eq!(d.sink, 2);
}

#[test]
fn test_publish_without_sink_drops() {
    let state = EngineState::new();
    assert!(send_application_message(&state, synthetic_record(0)).is_none());
}

#[test]
fn test_spy_status() {
    let mut state = EngineState::new();
    assert!(!get_spy_status(&state));
    start_spy(&mut state);
    assert!(get_spy_status(&state));
    start_spy(&mut state);
    assert!(get_spy_status(&state));
}

#[test]
fn test_begin_tick_null_handle() {
    assert!(begin_tick(WindowHandle { raw: 0 }).is_none());
    let h = begin_tick(WindowHandle { raw: 42 }).unwrap();
    assert_eq!(h.raw, 42);
}

#[test]
fn test_loop_without_sink_delivers_nothing() {
    // the end-to-end silent-drop run: polling started, no sink
    // registered, a synthetic source yielding one record per tick
    let mut state = EngineState::new();
    start_spy(&mut state);
    let mut deliveries = 0;
    for tick in 0..5u32 {
        let handle = begin_tick(WindowHandle { raw: 1 + tick as usize });
        let handle = handle.unwrap();
        let record = Application::from_parts(
            handle,
            format!("tick {}", tick),
            String::new(),
            None,
            None,
        )
        .unwrap();
        if send_application_message(&state, record).is_some() {
            deliveries += 1;
        }
    }
    assert_eq!(deliveries, 0);
    assert!(get_spy_status(&state));
}
