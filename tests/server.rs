use hello_server::cors::{init_cors, HttpMethod, DEVELOPMENT_ORIGIN, PRODUCTION_ORIGIN};
use hello_server::options::{LogSink, Options};
use hello_server::server::{
    root, start, step, Action, Event, Phase, StartupError, Transition, ROOT_PATH,
};

fn options(prod: bool, tracing: bool) -> Options {
    Options::new("not-an-address".to_string(), prod, tracing)
}

#[test]
fn root_answers_hello_world() {
    assert_eq!(root(), "Hello, World!");
    assert_eq!(ROOT_PATH, "/");
}

#[test]
fn production_origin_allowed_in_both_modes() {
    for prod in [false, true] {
        let policy = init_cors(&options(prod, false));
        assert!(policy.allows("http://somehost"));
    }
}

#[test]
fn development_origin_only_outside_production() {
    let dev = init_cors(&options(false, false));
    assert!(dev.allows("http://localhost:4200"));
    let prod = init_cors(&options(true, false));
    assert!(!prod.allows("http://localhost:4200"));
}

#[test]
fn unknown_origins_are_refused() {
    let policy = init_cors(&options(false, false));
    assert!(!policy.allows(""));
    assert!(!policy.allows("http://evil.example"));
    assert!(!policy.allows("http://somehost/"));
    assert!(!policy.allows("HTTP://SOMEHOST"));
}

#[test]
fn policy_lists_origins_methods_and_headers() {
    let dev = init_cors(&options(false, false));
    assert_eq!(dev.origins, vec![PRODUCTION_ORIGIN.to_string(), DEVELOPMENT_ORIGIN.to_string()]);
    assert_eq!(dev.methods, vec![HttpMethod::Options, HttpMethod::Head, HttpMethod::Get]);
    assert!(dev.any_header);
    let prod = init_cors(&options(true, true));
    assert_eq!(prod.origins, vec![PRODUCTION_ORIGIN.to_string()]);
}

#[test]
fn options_keep_their_values() {
    let o = Options::new("127.0.0.1:3000".to_string(), true, false);
    assert_eq!(o.address(), "127.0.0.1:3000");
    assert!(o.prod);
    assert!(!o.tracing);
}

#[test]
fn sink_selection_is_exclusive() {
    assert_eq!(options(false, true).log_sink(), LogSink::Diagnostics);
    assert_eq!(options(false, false).log_sink(), LogSink::Structured);
}

#[test]
fn startup_begins_by_installing_the_selected_sink() {
    let t = start(&options(true, false));
    assert_eq!(t, Transition { phase: Phase::Configured, action: Action::InstallSink(LogSink::Structured) });
}

#[test]
fn valid_startup_serves() {
    let t = step(Phase::Configured, Event::SinkInstalled(true));
    assert_eq!(t, Transition { phase: Phase::SinkReady, action: Action::CheckAddress });
    let t = step(t.phase, Event::AddressChecked(true));
    assert_eq!(t, Transition { phase: Phase::Serving, action: Action::Serve });
}

#[test]
fn invalid_address_aborts_before_serving() {
    let t = step(Phase::Configured, Event::SinkInstalled(true));
    let t = step(t.phase, Event::AddressChecked(false));
    let aborted = Phase::Aborted(StartupError::InvalidAddress);
    assert_eq!(t, Transition { phase: aborted, action: Action::Abort(StartupError::InvalidAddress) });
    let t = step(t.phase, Event::AddressChecked(true));
    assert_eq!(t, Transition { phase: aborted, action: Action::Ignore });
}

#[test]
fn sink_failure_aborts() {
    let t = step(Phase::Configured, Event::SinkInstalled(false));
    assert_eq!(t.action, Action::Abort(StartupError::SinkInit));
    assert_eq!(step(t.phase, Event::SinkInstalled(true)).phase, Phase::Aborted(StartupError::SinkInit));
}

#[test]
fn out_of_order_events_are_ignored() {
    let t = step(Phase::Configured, Event::AddressChecked(true));
    assert_eq!(t, Transition { phase: Phase::Configured, action: Action::Ignore });
    let t = step(Phase::Serving, Event::AddressChecked(false));
    assert_eq!(t, Transition { phase: Phase::Serving, action: Action::Ignore });
}

#[test]
fn many_requests_get_the_same_answers() {
    let policy = init_cors(&options(false, false));
    for _ in 0..100 {
        assert_eq!(root(), "Hello, World!");
        assert!(policy.allows("http://somehost"));
        assert!(!policy.allows("http://other"));
    }
}
