use toolkit::extract::navigation_url;
use toolkit::session::{BrowserError, Command, Extraction, Reply, Stage, TabLifecycle};

/// A browser double: a list of windows, the one with focus, and a log.
struct FakeBrowser {
    windows: Vec<String>,
    focus: usize,
    next_id: u32,
    log: Vec<String>,
    fail_open: bool,
    fail_focus: bool,
    fail_navigate: bool,
    fail_extract: bool,
    fail_close: bool,
    lose_home: bool,
    last_url: Option<String>,
}

impl FakeBrowser {
    fn new() -> FakeBrowser {
        FakeBrowser {
            windows: vec!["home".to_string()],
            focus: 0,
            next_id: 0,
            log: Vec::new(),
            fail_open: false,
            fail_focus: false,
            fail_navigate: false,
            fail_extract: false,
            fail_close: false,
            lose_home: false,
            last_url: None,
        }
    }

    fn perform(&mut self, cmd: &Command) -> Reply {
        match cmd {
            Command::OpenTab => {
                self.log.push("open".to_string());
                if self.fail_open {
                    return Reply::Failed;
                }
                self.next_id += 1;
                let h = format!("tab{}", self.next_id);
                self.windows.push(h.clone());
                Reply::Opened(h)
            }
            Command::SwitchTo(h) => {
                self.log.push(format!("focus {}", h));
                if self.fail_focus && h != "home" {
                    return Reply::Failed;
                }
                match self.windows.iter().position(|w| w == h) {
                    Some(i) => {
                        self.focus = i;
                        Reply::Done
                    }
                    None => Reply::Failed,
                }
            }
            Command::Navigate(url) => {
                self.log.push(format!("navigate {}", url));
                self.last_url = Some(url.clone());
                if self.fail_navigate {
                    Reply::Failed
                } else {
                    Reply::Done
                }
            }
            Command::ProbeImage => {
                self.log.push("probe".to_string());
                Reply::Failed
            }
            Command::Wait(ms) => {
                self.log.push(format!("wait {}", ms));
                Reply::Done
            }
            Command::Extract(_) => {
                self.log.push("extract".to_string());
                if self.fail_extract {
                    Reply::Failed
                } else {
                    Reply::Done
                }
            }
            Command::CloseTab => {
                self.log.push("close".to_string());
                if self.fail_close {
                    return Reply::Failed;
                }
                self.windows.remove(self.focus);
                if self.lose_home {
                    self.windows.clear();
                }
                self.focus = 0;
                Reply::Done
            }
            Command::ListWindows => {
                self.log.push("list".to_string());
                Reply::Windows(self.windows.clone())
            }
            Command::Finish(_) => Reply::Done,
        }
    }
}

fn serve(
    lc: &mut TabLifecycle,
    browser: &mut FakeBrowser,
    url: &str,
    delay: u64,
    op: Extraction,
) -> Result<(), BrowserError> {
    let mut cmd = lc.begin(url.to_string(), delay, op).expect("lifecycle at rest");
    loop {
        if let Command::Finish(r) = cmd {
            return r;
        }
        let reply = browser.perform(&cmd);
        cmd = lc.advance(reply);
    }
}

#[test]
fn html_request_returns_to_one_window() {
    let mut lc = TabLifecycle::new();
    let mut b = FakeBrowser::new();
    let r = serve(&mut lc, &mut b, "https://example.com", 100, Extraction::Html);
    assert_eq!(r, Ok(()));
    assert_eq!(b.windows.len(), 1);
    assert!(lc.is_idle());
    assert_eq!(
        b.log,
        vec![
            "open",
            "focus tab1",
            "navigate https://example.com",
            "probe",
            "wait 100",
            "extract",
            "close",
            "list",
            "focus home",
        ]
    );
}

#[test]
fn settle_delay_comes_between_navigation_and_extraction() {
    let mut lc = TabLifecycle::new();
    let mut b = FakeBrowser::new();
    serve(&mut lc, &mut b, "https://example.com", 2500, Extraction::Text).unwrap();
    let nav = b.log.iter().position(|e| e.starts_with("navigate")).unwrap();
    let wait = b.log.iter().position(|e| e == "wait 2500").unwrap();
    let extract = b.log.iter().position(|e| e == "extract").unwrap();
    assert!(nav < wait && wait + 1 == extract);
}

#[test]
fn bypass_paywall_navigates_behind_the_proxy() {
    let mut lc = TabLifecycle::new();
    let mut b = FakeBrowser::new();
    let target = navigation_url("https://example.com/article", true, Extraction::Text);
    serve(&mut lc, &mut b, &target, 0, Extraction::Text).unwrap();
    assert_eq!(
        b.last_url.as_deref(),
        Some("https://12ft.io/api/proxy?ref=&q=https://example.com/article")
    );
    let target = navigation_url("https://example.com/article", true, Extraction::Html);
    serve(&mut lc, &mut b, &target, 0, Extraction::Html).unwrap();
    assert_eq!(b.last_url.as_deref(), Some("https://12ft.io/https://example.com/article"));
}

#[test]
fn no_bypass_keeps_the_url() {
    assert_eq!(
        navigation_url("https://example.com", false, Extraction::Images),
        "https://example.com"
    );
}

#[test]
fn open_failure_reports_setup_without_cleanup() {
    let mut lc = TabLifecycle::new();
    let mut b = FakeBrowser::new();
    b.fail_open = true;
    let r = serve(&mut lc, &mut b, "https://example.com", 0, Extraction::Html);
    assert_eq!(r, Err(BrowserError::Setup));
    assert_eq!(b.log, vec!["open"]);
    assert_eq!(b.windows.len(), 1);
}

#[test]
fn focus_failure_cleans_up_before_reporting() {
    let mut lc = TabLifecycle::new();
    let mut b = FakeBrowser::new();
    b.fail_focus = true;
    let r = serve(&mut lc, &mut b, "https://example.com", 0, Extraction::Html);
    assert_eq!(r, Err(BrowserError::Setup));
    assert!(b.log.contains(&"close".to_string()));
    assert_eq!(b.windows.len(), 1);
}

#[test]
fn navigation_failure_cleans_up_before_reporting() {
    let mut lc = TabLifecycle::new();
    let mut b = FakeBrowser::new();
    b.fail_navigate = true;
    let r = serve(&mut lc, &mut b, "https://example.com", 0, Extraction::Screenshot);
    assert_eq!(r, Err(BrowserError::Setup));
    assert_eq!(b.windows, vec!["home".to_string()]);
    assert!(!b.log.contains(&"extract".to_string()));
}

#[test]
fn extraction_failure_still_cleans_up() {
    let mut lc = TabLifecycle::new();
    let mut b = FakeBrowser::new();
    b.fail_extract = true;
    let r = serve(&mut lc, &mut b, "https://example.com", 0, Extraction::Text);
    assert_eq!(r, Err(BrowserError::Extraction(Extraction::Text)));
    assert_eq!(b.windows.len(), 1);
    assert_eq!(
        BrowserError::Extraction(Extraction::Text).message(),
        "Failed to get the body of the page"
    );
}

#[test]
fn close_failure_masks_a_successful_extraction() {
    let mut lc = TabLifecycle::new();
    let mut b = FakeBrowser::new();
    b.fail_close = true;
    let r = serve(&mut lc, &mut b, "https://example.com", 0, Extraction::Html);
    assert_eq!(r, Err(BrowserError::Cleanup));
    assert_eq!(BrowserError::Cleanup.message(), "Failed to cleanup driver");
}

#[test]
fn missing_home_window_is_fatal() {
    let mut lc = TabLifecycle::new();
    let mut b = FakeBrowser::new();
    b.lose_home = true;
    let r = serve(&mut lc, &mut b, "https://example.com", 0, Extraction::Html);
    assert_eq!(r, Err(BrowserError::SessionLost));
    assert!(lc.is_idle());
}

#[test]
fn many_requests_keep_one_window() {
    let mut lc = TabLifecycle::new();
    let mut b = FakeBrowser::new();
    for i in 0..10u32 {
        b.fail_focus = i % 3 == 1;
        b.fail_navigate = i % 3 == 2;
        b.fail_extract = i % 4 == 0;
        let _ = serve(&mut lc, &mut b, "https://example.com", 0, Extraction::Images);
        assert_eq!(b.windows.len(), 1);
    }
    let opened = b.log.iter().filter(|e| *e == "open").count();
    let closed = b.log.iter().filter(|e| *e == "close").count();
    assert_eq!(opened, 10);
    assert_eq!(opened, closed);
}

#[test]
fn second_request_waits_until_the_first_is_done() {
    let mut lc = TabLifecycle::new();
    let mut b = FakeBrowser::new();
    let mut log: Vec<String> = Vec::new();
    let mut cmd = lc.begin("https://a.example".to_string(), 0, Extraction::Html).unwrap();
    log.push("acquire a".to_string());
    // The second request is refused while the first is in flight.
    assert!(lc.begin("https://b.example".to_string(), 0, Extraction::Html).is_none());
    assert_eq!(lc.stage, Stage::OpeningTab);
    while !matches!(cmd, Command::Finish(_)) {
        let reply = b.perform(&cmd);
        cmd = lc.advance(reply);
    }
    log.push("release a".to_string());
    let r = serve(&mut lc, &mut b, "https://b.example", 0, Extraction::Html);
    log.push("acquire b".to_string());
    log.push("release b".to_string());
    assert_eq!(r, Ok(()));
    let nav_a = b.log.iter().position(|e| e == "navigate https://a.example").unwrap();
    let nav_b = b.log.iter().position(|e| e == "navigate https://b.example").unwrap();
    let last_a = b.log[..nav_b].iter().rposition(|e| e == "focus home").unwrap();
    assert!(nav_a < last_a && last_a < nav_b);
    assert_eq!(log, vec!["acquire a", "release a", "acquire b", "release b"]);
}

#[test]
fn idle_lifecycle_repeats_its_last_report() {
    let mut lc = TabLifecycle::new();
    assert!(matches!(lc.advance(Reply::Done), Command::Finish(Ok(()))));
    assert!(lc.is_idle());
}
