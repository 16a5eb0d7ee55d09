use std::cell::{Cell, RefCell};

use testing_library_dom::document::{Document, Node};
use testing_library_dom::error::{QueryError, WaitForError};
use testing_library_dom::queries::text::{find_all_by_text, find_by_text};
use testing_library_dom::queries::Snapshots;
use testing_library_dom::types::config::{Config, PartialConfig};
use testing_library_dom::types::matches::{Matcher, MatcherOptions, SelectorMatcherOptions};
use testing_library_dom::types::wait_for::WaitForOptions;
use testing_library_dom::wait_for::{on_query_poll, wait_for, Clock, WaitAction, WaitFor};

/// A clock that jumps to the time that is slept until, and remembers when it
/// was asked to.
struct Fake {
    now: Cell<u64>,
    slept: RefCell<Vec<u64>>,
}

impl Fake {
    fn at(now: u64) -> Self {
        Fake {
            now: Cell::new(now),
            slept: RefCell::new(vec![]),
        }
    }
}

impl Clock for Fake {
    fn now(&self) -> u64 {
        self.now.get()
    }

    fn sleep_until(&self, at: u64) {
        self.slept.borrow_mut().push(at);
        if at > self.now.get() {
            self.now.set(at);
        }
    }
}

#[test]
fn a_callback_that_always_fails_times_out_at_the_timeout() {
    let clock = Fake::at(1000);
    let calls = Cell::new(0);
    let result: Result<(), WaitForError<u32>> = wait_for(
        || {
            calls.set(calls.get() + 1);
            Err(calls.get())
        },
        &clock,
        &WaitForOptions::new().timeout(120),
        &Config::default(),
    );

    // Polls at 0, 50 and 100 after the start, and the timeout at 120.
    assert_eq!(Err(WaitForError::Error(3)), result);
    assert_eq!(3, calls.get());
    assert_eq!(vec![1000, 1050, 1100, 1120], *clock.slept.borrow());
    let settled = clock.now() - 1000;
    assert!(120 <= settled && settled <= 120 + 50);
}

#[test]
fn the_timeout_comes_before_a_poll_at_the_same_time() {
    let clock = Fake::at(0);
    let calls = Cell::new(0);
    let result: Result<(), WaitForError<u32>> = wait_for(
        || {
            calls.set(calls.get() + 1);
            Err(calls.get())
        },
        &clock,
        &WaitForOptions::new().timeout(100).interval(50),
        &Config::default(),
    );
    assert_eq!(Err(WaitForError::Error(2)), result);
    assert_eq!(vec![0, 50, 100], *clock.slept.borrow());
}

#[test]
fn the_callback_is_called_once_even_without_time() {
    let clock = Fake::at(7);
    let calls = Cell::new(0);
    let result: Result<(), WaitForError<&str>> = wait_for(
        || {
            calls.set(calls.get() + 1);
            Err("no")
        },
        &clock,
        &WaitForOptions::new().timeout(0),
        &Config::default(),
    );
    assert_eq!(Err(WaitForError::Error("no")), result);
    assert_eq!(1, calls.get());
    assert_eq!(vec![7, 7], *clock.slept.borrow());
}

#[test]
fn success_ends_the_wait() {
    let clock = Fake::at(0);
    let calls = Cell::new(0);
    let result: Result<u32, WaitForError<&str>> = wait_for(
        || {
            calls.set(calls.get() + 1);
            if calls.get() == 4 {
                Ok(calls.get())
            } else {
                Err("not yet")
            }
        },
        &clock,
        &WaitForOptions::new().interval(10),
        &Config::default(),
    );
    assert_eq!(Ok(4), result);
    assert_eq!(vec![0, 10, 20, 30], *clock.slept.borrow());
}

#[test]
fn the_timeout_defaults_to_the_configurations() {
    let mut config = Config::default();
    let wait: WaitFor<()> = WaitFor::new(5, &WaitForOptions::new(), &config);
    assert_eq!((5, 1005, 50, 5), (wait.start, wait.deadline, wait.interval, wait.next_poll));
    assert!(!wait.polled && !wait.settled && wait.last_error.is_none());

    config.update(PartialConfig::default().async_util_timeout(20));
    let wait: WaitFor<()> = WaitFor::new(5, &WaitForOptions::new().interval(0), &config);
    assert_eq!((25, 1), (wait.deadline, wait.interval));

    let wait: WaitFor<()> =
        WaitFor::new(5, &WaitForOptions::new().timeout(-3).interval(-3), &config);
    assert_eq!((5, 1), (wait.deadline, wait.interval));

    let wait: WaitFor<()> = WaitFor::new(u64::MAX - 1, &WaitForOptions::new(), &config);
    assert_eq!(u64::MAX, wait.deadline);
}

#[test]
fn the_machine_says_what_comes_next() {
    let config = Config::default();
    let mut wait: WaitFor<&str> =
        WaitFor::new(0, &WaitForOptions::new().timeout(100).interval(40), &config);
    assert_eq!(WaitAction::Poll { at: 0 }, wait.next_action());
    assert_eq!(None, wait.on_poll::<()>(Err("a")));
    assert_eq!(WaitAction::Poll { at: 40 }, wait.next_action());
    assert_eq!(None, wait.on_poll::<()>(Err("b")));
    assert_eq!(WaitAction::Poll { at: 80 }, wait.next_action());
    assert_eq!(None, wait.on_poll::<()>(Err("c")));
    assert_eq!(WaitAction::TimeOut { at: 100 }, wait.next_action());
    assert_eq!(Some(Err(WaitForError::Error("c"))), wait.on_timeout::<()>());
    assert!(wait.settled);
    assert_eq!(WaitAction::Done, wait.next_action());

    // Nothing happens to a wait that is over.
    assert_eq!(None, wait.on_poll(Ok(())));
    assert_eq!(None, wait.on_poll::<()>(Err("d")));
    assert_eq!(None, wait.on_timeout::<()>());
    assert_eq!(None, wait.fail::<()>("e"));
    assert_eq!(WaitAction::Done, wait.next_action());
}

#[test]
fn a_wait_without_a_call_ends_as_timed_out() {
    let config = Config::default();
    let mut wait: WaitFor<&str> = WaitFor::new(0, &WaitForOptions::new(), &config);
    assert_eq!(Some(Err(WaitForError::TimedOut)), wait.on_timeout::<()>());

    let mut wait: WaitFor<&str> = WaitFor::new(0, &WaitForOptions::new(), &config);
    assert_eq!(Some(Ok(3)), wait.on_poll(Ok(3)));
    assert!(wait.settled);

    let mut wait: WaitFor<&str> = WaitFor::new(0, &WaitForOptions::new(), &config);
    assert_eq!(Some(Err(WaitForError::Error("x"))), wait.fail::<()>("x"));
    assert!(wait.settled);
}

#[test]
fn only_element_errors_are_retried() {
    let config = Config::default();
    let mut wait: WaitFor<QueryError> = WaitFor::new(0, &WaitForOptions::new(), &config);
    assert_eq!(
        None,
        on_query_poll::<()>(&mut wait, Err(QueryError::Element("none".to_owned())))
    );
    assert!(!wait.settled);
    assert_eq!(
        Some(Err(WaitForError::Error(QueryError::Unsupported("no".to_owned())))),
        on_query_poll::<()>(&mut wait, Err(QueryError::Unsupported("no".to_owned())))
    );
    assert!(wait.settled);

    for error in [
        QueryError::Configuration("c".to_owned()),
        QueryError::JsError("j".to_owned()),
    ] {
        let mut wait: WaitFor<QueryError> = WaitFor::new(0, &WaitForOptions::new(), &config);
        assert_eq!(
            Some(Err(WaitForError::Error(error.clone()))),
            on_query_poll::<()>(&mut wait, Err(error))
        );
    }
    let mut wait: WaitFor<QueryError> = WaitFor::new(0, &WaitForOptions::new(), &config);
    assert_eq!(Some(Ok(1)), on_query_poll(&mut wait, Ok(1)));
}

/// A document that gets its text at the third look.
struct Growing {
    looks: Cell<u32>,
}

impl Snapshots for Growing {
    fn take(&self) -> Document {
        self.looks.set(self.looks.get() + 1);
        let mut doc = Document::new();
        let root = doc.push_root(Node::element("div"));
        if self.looks.get() >= 3 {
            let p = doc.append_child(root, Node::element("p")).unwrap();
            doc.append_child(p, Node::text("ready")).unwrap();
        }
        doc
    }
}

#[test]
fn find_retries_until_the_element_is_there() {
    let source = Growing { looks: Cell::new(0) };
    let clock = Fake::at(0);
    let config = Config::default();
    let (doc, element) = find_by_text(
        &source,
        &clock,
        &config,
        0,
        &Matcher::String("ready".to_owned()),
        &SelectorMatcherOptions::new(),
        &WaitForOptions::new(),
    )
    .unwrap();
    assert_eq!(1, element);
    assert_eq!(3, doc.node_count());
    assert_eq!(3, source.looks.get());
    assert_eq!(vec![0, 50, 100], *clock.slept.borrow());

    let source = Growing { looks: Cell::new(0) };
    let clock = Fake::at(0);
    let (_, elements) = find_all_by_text(
        &source,
        &clock,
        &config,
        0,
        &Matcher::String("ready".to_owned()),
        &SelectorMatcherOptions::new(),
        &WaitForOptions::new(),
    )
    .unwrap();
    assert_eq!(vec![1], elements);
}

#[test]
fn find_gives_up_at_the_timeout_with_the_last_error() {
    let source = Growing { looks: Cell::new(0) };
    let clock = Fake::at(0);
    let config = Config::default();
    let error = find_by_text(
        &source,
        &clock,
        &config,
        0,
        &Matcher::String("never".to_owned()),
        &SelectorMatcherOptions::new(),
        &WaitForOptions::new().timeout(200),
    )
    .unwrap_err();
    assert!(matches!(
        &error,
        WaitForError::Error(QueryError::Element(text))
            if text.starts_with("Unable to find an element with the text: never.")
    ));
    assert_eq!(4, source.looks.get());
    assert_eq!(200, clock.now());
}

struct Upper;

impl testing_library_dom::types::matches::NormalizerFn for Upper {
    fn normalize(&self, text: &str) -> String {
        text.to_uppercase()
    }
}

#[test]
fn find_does_not_retry_options_in_conflict() {
    let source = Growing { looks: Cell::new(0) };
    let clock = Fake::at(0);
    let config = Config::default();
    let options = SelectorMatcherOptions::new()
        .trim(true)
        .normalizer(Box::new(Upper));
    let error = find_by_text(
        &source,
        &clock,
        &config,
        0,
        &Matcher::String("ready".to_owned()),
        &options,
        &WaitForOptions::new(),
    )
    .unwrap_err();
    assert!(matches!(
        error,
        WaitForError::Error(QueryError::Configuration(_))
    ));
    assert_eq!(1, source.looks.get());
    assert_eq!(vec![0], *clock.slept.borrow());
    let _ = MatcherOptions::new();
}

#[test]
fn find_reports_a_container_that_is_not_there() {
    let source = Growing { looks: Cell::new(0) };
    let clock = Fake::at(0);
    let config = Config::default();
    let error = find_by_text(
        &source,
        &clock,
        &config,
        9,
        &Matcher::String("ready".to_owned()),
        &SelectorMatcherOptions::new(),
        &WaitForOptions::new().timeout(60),
    )
    .unwrap_err();
    assert_eq!(
        WaitForError::Error(QueryError::Element(
            "The container is not in the document.".to_owned()
        )),
        error
    );
}
