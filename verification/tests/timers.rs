use proflogger_core::{profile, AutoLogger, LogDropProfiler, Severity, Timing};
use std::time::{Duration, Instant};

fn log_level(level: Severity) -> log::Level {
    match level {
        Severity::Error => log::Level::Error,
        Severity::Warn => log::Level::Warn,
        Severity::Info => log::Level::Info,
        Severity::Debug => log::Level::Debug,
        Severity::Trace => log::Level::Trace,
    }
}

fn check(timing: &Timing, name: &str, level: log::Level) {
    assert_eq!(timing.name, name);
    assert_eq!(timing.level, level);
    assert!(timing.nanos < 1_000_000_000);
}

#[test]
fn auto_logger_reports_its_name_and_level() {
    let timer = AutoLogger::new("work", log::Level::Info);
    check(&timer.report(), "work", log::Level::Info);
}

#[test]
fn log_drop_profiler_reports_its_name_and_level() {
    let timer = LogDropProfiler::new("work", log::Level::Debug);
    check(&timer.report(), "work", log::Level::Debug);
}

fn two_milliseconds_ago() -> Instant {
    let start = Instant::now();
    while start.elapsed() < Duration::from_millis(2) {}
    start
}

#[test]
fn auto_logger_counts_from_the_reading_it_is_given() {
    let timer = AutoLogger::started_at("late", two_milliseconds_ago(), log::Level::Warn);
    let timing = timer.report();
    check(&timing, "late", log::Level::Warn);
    assert!((timing.secs, timing.nanos) >= (0, 2_000_000));
}

#[test]
fn log_drop_profiler_counts_from_the_reading_it_is_given() {
    let timer = LogDropProfiler::started_at("late", two_milliseconds_ago(), log::Level::Error);
    let timing = timer.report();
    check(&timing, "late", log::Level::Error);
    assert!((timing.secs, timing.nanos) >= (0, 2_000_000));
}

#[test]
fn timers_given_one_reading_agree_on_the_start() {
    let start = Instant::now();
    let first = AutoLogger::started_at("a", start, log::Level::Trace);
    let second = LogDropProfiler::started_at("b", start, log::Level::Trace);
    let early = first.report();
    let late = second.report();
    assert!((late.secs, late.nanos) >= (early.secs, early.nanos));
}

#[test]
fn report_after_carries_the_time_it_is_given() {
    let timer = AutoLogger::new("work", log::Level::Info);
    let timing = timer.report_after(3, 250_000_000);
    check(&timing, "work", log::Level::Info);
    assert_eq!((timing.secs, timing.nanos), (3, 250_000_000));
    let timing = timer.report_after(0, 0);
    assert_eq!((timing.secs, timing.nanos), (0, 0));
    let timing = timer.report_after(u64::MAX, 999_999_999);
    assert_eq!((timing.secs, timing.nanos), (u64::MAX, 999_999_999));
}

#[test]
fn log_drop_profiler_report_after_carries_the_time_it_is_given() {
    let timer = LogDropProfiler::new("work", log::Level::Debug);
    let timing = timer.report_after(7, 1);
    check(&timing, "work", log::Level::Debug);
    assert_eq!((timing.secs, timing.nanos), (7, 1));
}

#[test]
fn later_reports_are_not_shorter() {
    let timer = AutoLogger::new("spin", log::Level::Trace);
    let first = timer.report();
    let total: usize = (0..1_000_000).sum();
    assert_eq!(total, 499_999_500_000);
    let second = timer.report();
    assert!((second.secs, second.nanos) >= (first.secs, first.nanos));
}

#[test]
fn timers_started_later_have_run_for_less() {
    let outer = LogDropProfiler::new("outer", log::Level::Trace);
    let inner = LogDropProfiler::new("inner", log::Level::Trace);
    let short = inner.report();
    let long = outer.report();
    assert!((long.secs, long.nanos) >= (short.secs, short.nanos));
}

#[test]
fn lib_test_macro() {
    fn test_profiled_function() -> Timing {
        let timer = LogDropProfiler::new("test_profiled_function", log::Level::Trace);
        let a = 0;
        println!("{a}");
        timer.report()
    }

    fn test_profiled_function2() -> Timing {
        let level = log_level(Severity::from_name("Error").unwrap());
        let timer = LogDropProfiler::new("test_profiled_function2", level);
        let a = 0;
        println!("{a}");
        timer.report()
    }

    fn test_profiled_function3(a: i32) -> (i32, Timing) {
        let timer = LogDropProfiler::new("test_profiled_function3", log::Level::Trace);
        println!("{a}");
        (a, timer.report())
    }

    pub fn test_profiled_function4<T>(a: T) -> (T, Timing) {
        let timer = LogDropProfiler::new("test_profiled_function4", log::Level::Trace);
        println!("0");
        return (a, timer.report());
    }

    fn test_profiled_function5(a: usize) -> (usize, Timing) {
        let timer = LogDropProfiler::new("test_profiled_function5", log::Level::Trace);
        ((0..a).sum(), timer.report())
    }

    check(&test_profiled_function(), "test_profiled_function", log::Level::Trace);
    check(&test_profiled_function2(), "test_profiled_function2", log::Level::Error);
    let (a, timing) = test_profiled_function3(0);
    assert_eq!(a, 0);
    check(&timing, "test_profiled_function3", log::Level::Trace);
    let (a, timing) = test_profiled_function4(0);
    assert_eq!(a, 0);
    check(&timing, "test_profiled_function4", log::Level::Trace);
    let (sum, timing) = test_profiled_function5(1_000_000);
    assert_eq!(sum, 499_999_500_000);
    check(&timing, "test_profiled_function5", log::Level::Trace);
}

#[test]
fn profiler_test_macro() {
    let plain = [
        (
            "",
            "test_profiled_function",
            "fn test_profiled_function() { let a = 0; println!(\"{a}\"); }",
        ),
        (
            "Error",
            "test_profiled_function2",
            "fn test_profiled_function2() { let a = 0; println!(\"{a}\"); }",
        ),
        (
            "",
            "test_profiled_function3",
            "fn test_profiled_function3(a: i32) -> i32 { println!(\"{a}\"); a }",
        ),
        (
            "",
            "test_profiled_function4",
            "pub fn test_profiled_function4<T>(a: T) -> T { println!(\"0\"); return a; }",
        ),
        (
            "",
            "test_profiled_function5",
            "#[must_use] fn test_profiled_function5(a: usize) -> usize { (0..a).sum() }",
        ),
        (
            "",
            "test_profiled_function6",
            "async fn test_profiled_function6(a: usize) -> usize { \
             async fn f(n: usize) { log::error!(\"{n}\"); } f(a).await; (0..a).sum() }",
        ),
    ];
    for (args, name, source) in plain {
        let level = if args.is_empty() { "log::Level::Trace" } else { "log::Level::Error" };
        let text = profile(args, source).unwrap();
        let timer = format!(
            "let _{name}_profiler = if log::log_enabled!({level}) \
             {{ Some(proflogger::AutoLogger::new(\"{name}\", {level})) }} else {{ None }}; {level};"
        );
        assert!(text.contains(&timer));
        let before = syn::parse_str::<syn::ItemFn>(source).unwrap();
        let after = syn::parse_str::<syn::ItemFn>(&text).unwrap();
        assert_eq!(after.sig.ident, before.sig.ident);
        assert_eq!(after.attrs.len(), before.attrs.len());
        assert_eq!(after.sig.asyncness.is_some(), before.sig.asyncness.is_some());
        assert_eq!(after.block.stmts.len(), before.block.stmts.len() + 2);
    }

    assert_eq!(
        profile(plain[1].0, plain[1].2).unwrap(),
        "fn test_profiled_function2 () { #[cfg(debug_assertions)] \
         let _test_profiled_function2_profiler = if log::log_enabled!(log::Level::Error) \
         { Some(proflogger::AutoLogger::new(\"test_profiled_function2\", log::Level::Error)) } \
         else { None }; log::Level::Error; let a = 0 ; println ! (\"{a}\") ; }"
    );

    fn test_profiled_function5(a: usize) -> (usize, Timing) {
        let timer = AutoLogger::new("test_profiled_function5", log::Level::Trace);
        ((0..a).sum(), timer.report())
    }

    fn test_profiled_function6(a: usize) -> (usize, Timing) {
        let timer = AutoLogger::new("test_profiled_function6", log::Level::Trace);
        ((0..a).sum(), timer.report())
    }

    let (sum, timing) = test_profiled_function5(1_000_000);
    assert_eq!(sum, 499_999_500_000);
    check(&timing, "test_profiled_function5", log::Level::Trace);
    let (sum, timing) = test_profiled_function6(10);
    assert_eq!(sum, 45);
    check(&timing, "test_profiled_function6", log::Level::Trace);
}
