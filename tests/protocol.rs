use tiltak_tei::budget::{clock_budget_ms, depth_estimate, nodes_per_second, Side};
use tiltak_tei::command::{parse_command, BoardSize, Budget, ClockTimes, Command, Origin};
use tiltak_tei::error::TeiError;
use tiltak_tei::num::{parse_small_int, parse_u64};
use tiltak_tei::search::{on_poll, poll_due, Poll, PollOutcome, SearchDriver};
use tiltak_tei::session::{handshake_lines, ready_line, EngineConfig, Reply, Session};
use tiltak_tei::text::split_words;

fn chars(s: &str) -> Vec<char> {
    s.chars().collect()
}

fn started() -> Session {
    let mut s = Session::new(EngineConfig { slatebot: false });
    assert_eq!(s.handle_line("tei").unwrap(), Reply::Handshake);
    s
}

fn is_invalid(r: Result<Reply, TeiError>, line: &str) -> bool {
    matches!(r, Err(TeiError::InvalidInput(m)) if m == line)
}

#[test]
fn lines_before_handshake_are_passed_over() {
    let mut s = Session::new(EngineConfig { slatebot: true });
    assert_eq!(s.handle_line("isready").unwrap(), Reply::Nothing);
    assert_eq!(s.handle_line("position startpos").unwrap(), Reply::Nothing);
    assert!(!s.started());
    assert_eq!(s.handle_line("tei").unwrap(), Reply::Handshake);
    assert!(s.started());
    assert!(s.config().slatebot);
}

#[test]
fn handshake_lines_in_order() {
    assert_eq!(
        handshake_lines(),
        vec![
            "id name Tiltak".to_string(),
            "id author Morten Lohne".to_string(),
            "option name HalfKomi type spin default 0 min -10 max 10".to_string(),
            "teiok".to_string(),
        ]
    );
    assert_eq!(ready_line(), "readyok");
}

#[test]
fn new_game_rejects_unsupported_sizes() {
    for line in ["teinewgame 3", "teinewgame 7", "teinewgame 0", "teinewgame foo", "teinewgame", "teinewgame 5 6", "teinewgame -5"] {
        let mut s = started();
        assert!(is_invalid(s.handle_line(line), line), "{}", line);
    }
}

#[test]
fn new_game_accepts_four_five_six_and_clears_position() {
    for (line, size) in [
        ("teinewgame 4", BoardSize::Four),
        ("teinewgame 5", BoardSize::Five),
        ("teinewgame +6", BoardSize::Six),
    ] {
        let mut s = started();
        assert_eq!(s.handle_line("teinewgame 5").unwrap(), Reply::Nothing);
        assert_eq!(s.handle_line("position startpos").unwrap(), Reply::NewPosition);
        assert!(s.position().is_some());
        assert_eq!(s.handle_line(line).unwrap(), Reply::Nothing);
        assert_eq!(s.board_size(), Some(size));
        assert_eq!(size.width() as usize, line.chars().last().unwrap().to_digit(10).unwrap() as usize);
        assert!(s.position().is_none());
    }
}

#[test]
fn position_before_new_game_is_invalid() {
    let mut s = started();
    assert!(is_invalid(s.handle_line("position startpos"), "position startpos"));
    assert!(is_invalid(
        s.handle_line("position startpos moves a1 b2"),
        "position startpos moves a1 b2"
    ));
}

#[test]
fn go_without_position_is_invalid() {
    let mut s = started();
    assert!(is_invalid(s.handle_line("go movetime 1000"), "go movetime 1000"));
    s.handle_line("teinewgame 6").unwrap();
    assert!(is_invalid(s.handle_line("go movetime 1000"), "go movetime 1000"));
}

#[test]
fn set_half_komi() {
    let mut s = started();
    assert_eq!(s.half_komi(), 0);
    assert_eq!(s.handle_line("setoption name HalfKomi value 3").unwrap(), Reply::Nothing);
    assert_eq!(s.half_komi(), 3);
    assert_eq!(s.handle_line("setoption name HalfKomi value -10").unwrap(), Reply::Nothing);
    assert_eq!(s.half_komi(), -10);
    assert_eq!(s.handle_line("setoption name HalfKomi value +10").unwrap(), Reply::Nothing);
    assert_eq!(s.half_komi(), 10);
}

#[test]
fn set_half_komi_rejects_bad_values_and_names() {
    for line in [
        "setoption name HalfKomi value foo",
        "setoption name HalfKomi value 11",
        "setoption name HalfKomi value -11",
        "setoption name HalfKomi value 300",
        "setoption name HalfKomi value",
        "setoption name Komi value 3",
        "setoption name HalfKomi 3",
        "setoption",
    ] {
        let mut s = started();
        assert!(is_invalid(s.handle_line(line), line), "{}", line);
        assert_eq!(s.half_komi(), 0);
    }
}

#[test]
fn position_startpos_with_moves() {
    let mut s = started();
    s.handle_line("setoption name HalfKomi value 4").unwrap();
    s.handle_line("teinewgame 5").unwrap();
    assert_eq!(s.handle_line("position startpos moves a1 b2").unwrap(), Reply::NewPosition);
    let p = s.position().unwrap();
    assert_eq!(p.size, BoardSize::Five);
    assert_eq!(p.half_komi, 4);
    assert!(matches!(p.origin, Origin::StartPos));
    assert_eq!(p.moves, vec![chars("a1"), chars("b2")]);
}

#[test]
fn position_from_tps() {
    let mut s = started();
    s.handle_line("teinewgame 4").unwrap();
    let line = "position tps x4/x4/x4/x4 1 1 moves c3";
    assert_eq!(s.handle_line(line).unwrap(), Reply::NewPosition);
    let p = s.position().unwrap();
    match &p.origin {
        Origin::Tps(t) => assert_eq!(*t, chars("x4/x4/x4/x4 1 1")),
        Origin::StartPos => panic!("expected a tps origin"),
    }
    assert_eq!(p.moves, vec![chars("c3")]);
}

#[test]
fn position_rejects_bad_forms() {
    for line in [
        "position",
        "position foo",
        "position startpos a1",
        "position tps x4/x4/x4/x4 1",
        "position tps x4/x4/x4/x4 1 1 c3",
    ] {
        let mut s = started();
        s.handle_line("teinewgame 4").unwrap();
        assert!(is_invalid(s.handle_line(line), line), "{}", line);
    }
}

#[test]
fn go_budgets() {
    let mut s = started();
    s.handle_line("teinewgame 6").unwrap();
    s.handle_line("position startpos").unwrap();
    assert_eq!(s.handle_line("go movetime 1000").unwrap(), Reply::Search(Budget::MoveTime(1000)));
    assert_eq!(s.handle_line("go").unwrap(), Reply::Search(Budget::Infinite));
    assert_eq!(s.handle_line("go infinite").unwrap(), Reply::Search(Budget::Infinite));
    assert_eq!(
        s.handle_line("go wtime 10000 btime 10000 winc 0 binc 0").unwrap(),
        Reply::Search(Budget::Clock(ClockTimes {
            white_time: 10000,
            black_time: 10000,
            white_inc: 0,
            black_inc: 0,
        }))
    );
    assert_eq!(
        s.handle_line("go btime 500 wtime 7000 binc 30").unwrap(),
        Reply::Search(Budget::Clock(ClockTimes {
            white_time: 7000,
            black_time: 500,
            white_inc: 0,
            black_inc: 30,
        }))
    );
}

#[test]
fn go_rejects_malformed_budgets() {
    for line in [
        "go movetime",
        "go movetime soon",
        "go movetime 10 20",
        "go wtime 100",
        "go wtime 100 btime",
        "go wtime 100 btime x",
        "go wtime 100 wtime 100 btime 5",
        "go depth 5",
    ] {
        let mut s = started();
        s.handle_line("teinewgame 5").unwrap();
        s.handle_line("position startpos").unwrap();
        assert!(is_invalid(s.handle_line(line), line), "{}", line);
    }
}

#[test]
fn unknown_and_empty_lines_are_invalid() {
    for line in ["", "   ", "hello", "tei", "STOP"] {
        let mut s = started();
        assert!(is_invalid(s.handle_line(line), line), "{:?}", line);
    }
}

#[test]
fn stop_and_quit_when_idle() {
    let mut s = started();
    assert_eq!(s.handle_line("stop").unwrap(), Reply::Nothing);
    assert_eq!(s.handle_line("quit").unwrap(), Reply::Quit);
}

#[test]
fn is_ready_changes_nothing() {
    let mut s = started();
    s.handle_line("setoption name HalfKomi value 2").unwrap();
    s.handle_line("teinewgame 5").unwrap();
    s.handle_line("position startpos moves a1").unwrap();
    assert_eq!(s.handle_line("isready").unwrap(), Reply::ReadyOk);
    assert_eq!(s.handle_line("isready").unwrap(), Reply::ReadyOk);
    assert_eq!(s.half_komi(), 2);
    assert_eq!(s.board_size(), Some(BoardSize::Five));
    assert_eq!(s.position().unwrap().moves, vec![chars("a1")]);
    assert_eq!(on_poll(&Poll::Line("isready".to_string())).unwrap(), PollOutcome::ReadyOk);
}

#[test]
fn polls_during_search() {
    assert_eq!(on_poll(&Poll::Empty).unwrap(), PollOutcome::Continue);
    assert_eq!(on_poll(&Poll::Line("stop".to_string())).unwrap(), PollOutcome::Stop);
    assert_eq!(on_poll(&Poll::Line("quit".to_string())).unwrap(), PollOutcome::Quit);
    assert!(matches!(on_poll(&Poll::Closed), Err(TeiError::NoInput)));
    assert!(matches!(
        on_poll(&Poll::Line("go movetime 5".to_string())),
        Err(TeiError::InvalidInput(m)) if m == "go movetime 5"
    ));
    assert!(poll_due(0));
    assert!(poll_due(20000));
    assert!(!poll_due(10001));
}

#[test]
fn move_time_search_ends_after_seven_tenths() {
    let mut d = SearchDriver::new(Some(1000));
    assert_eq!(d.batch(), 1000);
    assert!(!d.finish_batch(false, 500));
    assert_eq!(d.batch(), 1100);
    assert!(!d.finish_batch(false, 700));
    assert_eq!(d.batch(), 1210);
    assert!(!d.is_done());
    assert!(d.finish_batch(false, 701));
    assert!(d.is_done());
}

#[test]
fn stop_ends_search_after_the_batch() {
    let mut d = SearchDriver::new(None);
    assert!(!d.finish_batch(false, 1_000_000));
    assert!(d.finish_batch(true, 1_000_001));
    assert!(d.is_done());
}

#[test]
fn clock_budget_for_side_to_move() {
    let c = ClockTimes { white_time: 10000, black_time: 10000, white_inc: 0, black_inc: 0 };
    assert_eq!(clock_budget_ms(&c, Side::White), 2000);
    let c = ClockTimes { white_time: 60000, black_time: 3000, white_inc: 1000, black_inc: 501 };
    assert_eq!(clock_budget_ms(&c, Side::White), 12500);
    assert_eq!(clock_budget_ms(&c, Side::Black), 850);
    let c = ClockTimes { white_time: u64::MAX, black_time: 0, white_inc: u64::MAX, black_inc: 0 };
    assert_eq!(clock_budget_ms(&c, Side::White), u64::MAX / 5 + u64::MAX / 2);
    assert_eq!(clock_budget_ms(&c, Side::Black), 0);
}

#[test]
fn progress_numbers() {
    assert_eq!(depth_estimate(0), 0);
    assert_eq!(depth_estimate(199), 0);
    assert_eq!(depth_estimate(200), 1);
    assert_eq!(depth_estimate(1000), 3);
    assert_eq!(depth_estimate(100000), 9);
    assert_eq!(depth_estimate(u64::MAX), 57);
    assert_eq!(nodes_per_second(5000, 0), None);
    assert_eq!(nodes_per_second(5000, 2000), Some(2500));
    assert_eq!(nodes_per_second(u64::MAX, 1), Some(u64::MAX as u128 * 1000));
}

#[test]
fn numbers_and_words() {
    assert_eq!(parse_u64(&chars("+12")), Some(12));
    assert_eq!(parse_u64(&chars("18446744073709551615")), Some(u64::MAX));
    assert_eq!(parse_u64(&chars("18446744073709551616")), None);
    assert_eq!(parse_u64(&chars("+")), None);
    assert_eq!(parse_u64(&chars("")), None);
    assert_eq!(parse_u64(&chars("-1")), None);
    assert_eq!(parse_small_int(&chars("-7"), -10, 10), Some(-7));
    assert_eq!(parse_small_int(&chars("-"), -10, 10), None);
    assert_eq!(parse_small_int(&chars("12"), -10, 10), None);
    assert_eq!(
        split_words(" go\twtime  5 \n"),
        vec![chars("go"), chars("wtime"), chars("5")]
    );
    assert!(split_words("\u{3000} ").is_empty());
}

#[test]
fn parse_single_commands() {
    assert!(matches!(parse_command("isready"), Ok(Command::IsReady)));
    assert!(matches!(parse_command("  quit  "), Ok(Command::Quit)));
    assert!(matches!(parse_command("teinewgame 6"), Ok(Command::NewGame(BoardSize::Six))));
    assert!(matches!(parse_command("setoption name HalfKomi value -3"), Ok(Command::SetHalfKomi(-3))));
    assert!(matches!(parse_command("go movetime 250"), Ok(Command::Go(Budget::MoveTime(250)))));
    assert!(matches!(parse_command("bogus"), Err(TeiError::InvalidInput(m)) if m == "bogus"));
}
