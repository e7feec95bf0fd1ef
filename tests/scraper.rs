use unsplash_scraper::config::{is_success, Config, CycleOutcome, ScrapeError};
use unsplash_scraper::cycle::{Cycle, HttpReply, Phase, Reply, Request};
use unsplash_scraper::pacing::{next_interval, BACKOFF_STEP_MS};
use unsplash_scraper::proxy::select_proxy;
use unsplash_scraper::request::{
    authorization, cursor_url, decimal_string, increment_url, page_url, submit_url, USER_AGENT,
};
use unsplash_scraper::run_loop::RunLoop;

fn config(scrape_count: u32, proxies: Vec<String>) -> Config {
    Config {
        url: "https://api.unsplash.com/photos/".to_string(),
        per_page: 30,
        access_key: "KEY".to_string(),
        hosts: "http://localhost:8000".to_string(),
        scrape_count,
        interval_ms: 3000,
        proxies,
        insecure_tls: false,
        strict_writeback: false,
    }
}

fn ok_page(status: u16, body: &str) -> Reply {
    Reply::Page(Ok(HttpReply { status, body: body.to_string() }))
}

#[test]
fn decimal_formats() {
    assert_eq!(decimal_string(0), "0");
    assert_eq!(decimal_string(7), "7");
    assert_eq!(decimal_string(10), "10");
    assert_eq!(decimal_string(1203), "1203");
    assert_eq!(decimal_string(u32::MAX), "4294967295");
}

#[test]
fn endpoint_urls() {
    assert_eq!(cursor_url("http://h"), "http://h/api/unsplash_page");
    assert_eq!(increment_url("http://h"), "http://h/api/unsplash_page/increment");
    assert_eq!(submit_url("http://h"), "http://h/api/unsplash_page/scrape");
    assert_eq!(page_url("http://p/", 12, 30), "http://p/?page=12&per_page=30");
    assert_eq!(authorization("abc"), "Client-ID abc");
    assert_eq!(USER_AGENT, "My Rusty Baby boy");
}

#[test]
fn status_ranges() {
    assert!(!is_success(199));
    assert!(is_success(200));
    assert!(is_success(299));
    assert!(!is_success(300));
    assert!(!is_success(500));
}

#[test]
fn proxies_round_robin() {
    let expected = [0usize, 1, 2, 0, 1, 2, 0];
    for (i, e) in expected.iter().enumerate() {
        assert_eq!(select_proxy(i as u32, 3), Some(*e));
    }
    assert_eq!(select_proxy(5, 0), None);
    assert_eq!(select_proxy(u32::MAX, 7), Some((u32::MAX % 7) as usize));

    let cfg = config(5, vec!["http://a".to_string(), "http://b".to_string()]);
    for index in 0..5u32 {
        let (mut c, _) = Cycle::start(&cfg, index);
        match c.step(&cfg, Reply::Cursor(Ok(1))) {
            Request::FetchPage { proxy, .. } => assert_eq!(proxy, Some((index % 2) as usize)),
            other => panic!("unexpected request {:?}", other),
        }
    }
    let direct = config(1, Vec::new());
    let (mut c, _) = Cycle::start(&direct, 3);
    match c.step(&direct, Reply::Cursor(Ok(1))) {
        Request::FetchPage { proxy, .. } => assert_eq!(proxy, None),
        other => panic!("unexpected request {:?}", other),
    }
}

#[test]
fn cursor_failure_ends_cycle() {
    let cfg = config(1, Vec::new());
    let (mut c, first) = Cycle::start(&cfg, 0);
    match first {
        Request::ReadCursor { url } => assert_eq!(url, "http://localhost:8000/api/unsplash_page"),
        other => panic!("unexpected request {:?}", other),
    }
    assert!(c.expects(&Reply::Cursor(Ok(0))));
    assert!(!c.expects(&ok_page(200, "")));
    match c.step(&cfg, Reply::Cursor(Err(ScrapeError::Protocol))) {
        Request::Finished(o) => assert_eq!(o, CycleOutcome::Failure(ScrapeError::Protocol)),
        other => panic!("unexpected request {:?}", other),
    }
    assert_eq!(c.phase, Phase::Done);
    assert!(!c.expects(&ok_page(200, "")));
    assert!(!c.expects(&Reply::Submitted(Ok(200))));
    assert!(!c.expects(&Reply::Incremented(Ok(200))));
}

#[test]
fn fetch_failure_ends_cycle() {
    let cfg = config(1, Vec::new());
    for (reply, error) in [
        (Reply::Page(Err(ScrapeError::Transport)), ScrapeError::Transport),
        (Reply::Page(Err(ScrapeError::Configuration)), ScrapeError::Configuration),
        (ok_page(500, "oops"), ScrapeError::HttpStatus(500)),
        (ok_page(404, ""), ScrapeError::HttpStatus(404)),
    ] {
        let (mut c, _) = Cycle::start(&cfg, 0);
        c.step(&cfg, Reply::Cursor(Ok(4)));
        match c.step(&cfg, reply) {
            Request::Finished(o) => assert_eq!(o, CycleOutcome::Failure(error)),
            other => panic!("unexpected request {:?}", other),
        }
        assert!(!c.expects(&Reply::Submitted(Ok(200))));
        assert!(!c.expects(&Reply::Incremented(Ok(200))));
    }
}

#[test]
fn successful_cycle_requests() {
    let cfg = config(1, Vec::new());
    let (mut c, _) = Cycle::start(&cfg, 0);
    match c.step(&cfg, Reply::Cursor(Ok(7))) {
        Request::FetchPage { url, proxy, authorization } => {
            assert_eq!(url, "https://api.unsplash.com/photos/?page=7&per_page=30");
            assert_eq!(proxy, None);
            assert_eq!(authorization, "Client-ID KEY");
        }
        other => panic!("unexpected request {:?}", other),
    }
    match c.step(&cfg, ok_page(200, "[{\"id\":1}]")) {
        Request::SubmitScrape { url, payload, authorization } => {
            assert_eq!(url, "http://localhost:8000/api/unsplash_page/scrape");
            assert_eq!(payload, "[{\"id\":1}]");
            assert_eq!(authorization, "Client-ID KEY");
        }
        other => panic!("unexpected request {:?}", other),
    }
    match c.step(&cfg, Reply::Submitted(Ok(201))) {
        Request::IncrementCursor { url } => {
            assert_eq!(url, "http://localhost:8000/api/unsplash_page/increment")
        }
        other => panic!("unexpected request {:?}", other),
    }
    match c.step(&cfg, Reply::Incremented(Ok(200))) {
        Request::Finished(o) => assert_eq!(o, CycleOutcome::Success),
        other => panic!("unexpected request {:?}", other),
    }
}

fn write_back(cfg: &Config, submitted: Result<u16, ScrapeError>, incremented: Result<u16, ScrapeError>) -> CycleOutcome {
    let (mut c, _) = Cycle::start(cfg, 0);
    c.step(cfg, Reply::Cursor(Ok(1)));
    c.step(cfg, ok_page(200, "x"));
    match c.step(cfg, Reply::Submitted(submitted)) {
        Request::IncrementCursor { .. } => {}
        other => panic!("unexpected request {:?}", other),
    }
    match c.step(cfg, Reply::Incremented(incremented)) {
        Request::Finished(o) => o,
        other => panic!("unexpected request {:?}", other),
    }
}

#[test]
fn writeback_failures() {
    let lax = config(1, Vec::new());
    assert_eq!(write_back(&lax, Ok(500), Ok(503)), CycleOutcome::Success);
    assert_eq!(
        write_back(&lax, Err(ScrapeError::Transport), Ok(200)),
        CycleOutcome::Failure(ScrapeError::Transport)
    );
    assert_eq!(
        write_back(&lax, Ok(200), Err(ScrapeError::Transport)),
        CycleOutcome::Failure(ScrapeError::Transport)
    );
    let mut strict = config(1, Vec::new());
    strict.strict_writeback = true;
    assert_eq!(write_back(&strict, Ok(200), Ok(204)), CycleOutcome::Success);
    assert_eq!(
        write_back(&strict, Ok(500), Ok(503)),
        CycleOutcome::Failure(ScrapeError::HttpStatus(500))
    );
    assert_eq!(
        write_back(&strict, Ok(200), Ok(503)),
        CycleOutcome::Failure(ScrapeError::HttpStatus(503))
    );
}

#[test]
fn pacing_steps() {
    assert_eq!(BACKOFF_STEP_MS, 10000);
    assert_eq!(next_interval(3000, 43000, true), 3000);
    assert_eq!(next_interval(3000, 3000, false), 13000);
    assert_eq!(next_interval(3000, u64::MAX - 5, false), u64::MAX);
}

#[test]
fn success_resets_pacing() {
    let cfg = config(4, Vec::new());
    let mut run = RunLoop::new(&cfg);
    let failure = CycleOutcome::Failure(ScrapeError::Transport);
    assert_eq!(run.finish_cycle(failure), 13000);
    assert_eq!(run.finish_cycle(failure), 23000);
    assert_eq!(run.finish_cycle(CycleOutcome::Success), 3000);
    assert_eq!(run.interval_ms, 3000);
}

#[test]
fn failures_grow_without_cap() {
    let mut cfg = config(5, Vec::new());
    cfg.interval_ms = 3000;
    let mut run = RunLoop::new(&cfg);
    let mut slept = Vec::new();
    while let Some(_) = run.next_cycle() {
        slept.push(run.finish_cycle(CycleOutcome::Failure(ScrapeError::HttpStatus(500))));
    }
    assert_eq!(slept, vec![13000, 23000, 33000, 43000, 53000]);
    assert_eq!(run.interval_ms, 53000);
}

#[test]
fn zero_count_runs_no_cycle() {
    let cfg = config(0, Vec::new());
    let run = RunLoop::new(&cfg);
    assert_eq!(run.next_cycle(), None);
}

#[test]
fn run_offers_each_cycle_once() {
    let cfg = config(3, Vec::new());
    let mut run = RunLoop::new(&cfg);
    let mut seen = Vec::new();
    while let Some(i) = run.next_cycle() {
        seen.push(i);
        run.finish_cycle(CycleOutcome::Success);
    }
    assert_eq!(seen, vec![0, 1, 2]);
}

#[test]
fn cursor_seven_is_fetched_page() {
    let cfg = config(1, Vec::new());
    let (mut c, _) = Cycle::start(&cfg, 0);
    match c.step(&cfg, Reply::Cursor(Ok(7))) {
        Request::FetchPage { url, .. } => {
            assert!(url.contains("?page=7&"));
            assert_eq!(url, "https://api.unsplash.com/photos/?page=7&per_page=30");
        }
        other => panic!("unexpected request {:?}", other),
    }
}

#[test]
fn three_cycles_one_failure() {
    let cfg = config(3, Vec::new());
    let cursors = [1u32, 1, 2];
    let statuses = [200u16, 500, 200];
    let mut run = RunLoop::new(&cfg);
    let (mut fetches, mut submits, mut increments, mut failures) = (0, 0, 0, 0);
    let mut pages = Vec::new();
    while let Some(index) = run.next_cycle() {
        let i = index as usize;
        let (mut c, mut req) = Cycle::start(&cfg, index);
        let outcome = loop {
            let reply = match req {
                Request::ReadCursor { .. } => Reply::Cursor(Ok(cursors[i])),
                Request::FetchPage { url, .. } => {
                    fetches += 1;
                    pages.push(url);
                    ok_page(statuses[i], "body")
                }
                Request::SubmitScrape { .. } => {
                    submits += 1;
                    Reply::Submitted(Ok(200))
                }
                Request::IncrementCursor { .. } => {
                    increments += 1;
                    Reply::Incremented(Ok(200))
                }
                Request::Finished(o) => break o,
            };
            assert!(c.expects(&reply));
            req = c.step(&cfg, reply);
        };
        if outcome != CycleOutcome::Success {
            failures += 1;
        }
        run.finish_cycle(outcome);
    }
    assert_eq!(fetches, 3);
    assert_eq!(submits, 2);
    assert_eq!(increments, 2);
    assert_eq!(failures, 1);
    assert_eq!(
        pages,
        vec![
            "https://api.unsplash.com/photos/?page=1&per_page=30".to_string(),
            "https://api.unsplash.com/photos/?page=1&per_page=30".to_string(),
            "https://api.unsplash.com/photos/?page=2&per_page=30".to_string(),
        ]
    );
    assert_eq!(run.interval_ms, 3000);
}
