use nvtop::termite::{LogType, LoggingHandle};

#[test]
fn level_tags() {
    assert_eq!(LoggingHandle::log_error("disk full"), " ERROR disk full\n");
    assert_eq!(LoggingHandle::log_info("ready"), " INFO ready\n");
    assert_eq!(LoggingHandle::log_debug("x=1"), " DEBUG x=1\n");
    assert_eq!(LoggingHandle::log_warn(""), " WARN \n");
}

#[test]
fn worker_lines_per_entry() {
    assert_eq!(LogType::Error("a".to_string()).line(), Some(" ERROR a\n".to_string()));
    assert_eq!(LogType::Info("b".to_string()).line(), Some(" INFO b\n".to_string()));
    assert_eq!(LogType::Debug("c".to_string()).line(), Some(" DEBUG c\n".to_string()));
    assert_eq!(LogType::Warn("d".to_string()).line(), Some(" WARN d\n".to_string()));
    assert_eq!(LogType::HangUp.line(), None);
}

#[test]
fn hundred_entries_in_order() {
    let entries: Vec<LogType> = (0..100).map(|i| LogType::Info(format!("entry {}", i))).collect();
    let mut text = String::new();
    for e in &entries {
        text.push_str(&e.line().unwrap());
    }
    let lines: Vec<&str> = text.lines().collect();
    assert_eq!(lines.len(), 100);
    for (i, l) in lines.iter().enumerate() {
        assert_eq!(*l, format!(" INFO entry {}", i));
    }
}

#[test]
fn empty_handle_discards_without_blocking() {
    let lh = LoggingHandle::empty();
    for i in 0..1000 {
        lh.error(&format!("e{}", i));
        lh.info("i");
        lh.debug("d");
        lh.warn("w");
    }
    lh.submit(LogType::HangUp);
}

#[test]
fn entries_reach_a_live_receiver_in_order() {
    let (tx, rx) = std::sync::mpsc::channel();
    let lh = LoggingHandle { sender: tx };
    lh.error("one");
    lh.warn("two");
    lh.submit(LogType::HangUp);
    assert_eq!(rx.recv().unwrap(), LogType::Error("one".to_string()));
    assert_eq!(rx.recv().unwrap(), LogType::Warn("two".to_string()));
    assert_eq!(rx.recv().unwrap(), LogType::HangUp);
}
