use vstd::prelude::*;

use crate::budget::move_budget;
use crate::command::{board_size_of, clock_fields_upto, no_clock_fields, Budget, ClockTimes, OriginView};
use crate::num::{signed_text, u64_text};
use crate::search::{poll_outcome, PollOutcome};
use crate::session::{step, Reply, SessionView};
use crate::text::words;

verus! {

/// The command words that the session tells apart, and their lengths.
proof fn lemma_keyword_lengths()
    ensures
        "tei"@.len() == 3,
        "isready"@.len() == 7,
        "setoption"@.len() == 9,
        "teinewgame"@.len() == 10,
        "position"@.len() == 8,
        "go"@.len() == 2,
        "stop"@.len() == 4,
        "quit"@.len() == 4,
        "startpos"@.len() == 8,
        "moves"@.len() == 5,
        "HalfKomi"@.len() == 8,
        "stop"@[0] == 's',
        "quit"@[0] == 'q',
        "isready"@[0] == 'i',
{
    reveal_strlit("tei");
    reveal_strlit("isready");
    reveal_strlit("setoption");
    reveal_strlit("teinewgame");
    reveal_strlit("position");
    reveal_strlit("go");
    reveal_strlit("stop");
    reveal_strlit("quit");
    reveal_strlit("startpos");
    reveal_strlit("moves");
    reveal_strlit("HalfKomi");
}

/// After the handshake, `teinewgame <w>` is invalid input unless `w` reads as
/// 4, 5 or 6; if it does, it sets that board size and clears the position.
pub proof fn lemma_new_game(s: SessionView, line: Seq<char>, w: Seq<char>)
    requires
        s.started,
        words(line) == seq!["teinewgame"@, w],
    ensures
        step(s, line) is None <==> !(u64_text(w) is Some && board_size_of(u64_text(w)->0) is Some),
        step(s, line) matches Some((t, r)) ==> {
            &&& r == Reply::Nothing
            &&& t.position is None
            &&& t.size matches Some(b) && b.spec_width() == u64_text(w)->0
            &&& t.half_komi == s.half_komi
        },
{
    lemma_keyword_lengths();
    let w0 = words(line)[0];
    assert(w0 != "tei"@);
    assert(w0 != "isready"@);
    assert(w0 != "setoption"@);
}

/// After the handshake, and before any `teinewgame`, a `position` line is
/// invalid input.
pub proof fn lemma_position_needs_new_game(s: SessionView, line: Seq<char>)
    requires
        s.started,
        s.size is None,
        words(line).len() > 0,
        words(line)[0] == "position"@,
    ensures
        step(s, line) is None,
{
    lemma_keyword_lengths();
    let w0 = words(line)[0];
    assert(w0 != "tei"@);
    assert(w0 != "isready"@);
    assert(w0 != "setoption"@);
    assert(w0 != "teinewgame"@);
}

/// After the handshake, `setoption name HalfKomi value <w>` sets the half-komi
/// that `w` spells where it lies in -10..=10, and is invalid input otherwise.
pub proof fn lemma_set_half_komi(s: SessionView, line: Seq<char>, w: Seq<char>)
    requires
        s.started,
        words(line) == seq!["setoption"@, "name"@, "HalfKomi"@, "value"@, w],
    ensures
        match signed_text(w) {
            Some(k) => if -10 <= k <= 10 {
                step(s, line) == Some((SessionView { half_komi: k as i8, ..s }, Reply::Nothing))
            } else {
                step(s, line) is None
            },
            None => step(s, line) is None,
        },
{
    lemma_keyword_lengths();
    let w0 = words(line)[0];
    assert(w0 != "tei"@);
    assert(w0 != "isready"@);
}

/// After the handshake, a `setoption` line that names any option other than
/// `HalfKomi` is invalid input.
pub proof fn lemma_unknown_option(s: SessionView, line: Seq<char>)
    requires
        s.started,
        words(line).len() >= 3,
        words(line)[0] == "setoption"@,
        words(line)[2] != "HalfKomi"@,
    ensures
        step(s, line) is None,
{
    lemma_keyword_lengths();
    let w0 = words(line)[0];
    assert(w0 != "tei"@);
    assert(w0 != "isready"@);
}

/// With a board size set, `position startpos moves m1 m2 ...` holds the start
/// position of that size with the moves to play, in the order given.
pub proof fn lemma_position_moves(s: SessionView, line: Seq<char>, moves: Seq<Seq<char>>)
    requires
        s.started,
        s.size is Some,
        words(line) == seq!["position"@, "startpos"@, "moves"@] + moves,
    ensures
        step(s, line) is Some,
        ({
            let (t, r) = step(s, line)->0;
            &&& r == Reply::NewPosition
            &&& t.size == s.size
            &&& t.position is Some
            &&& t.position->0.size == s.size->0
        }),
        ({
            let (t, r) = step(s, line)->0;
            let p = t.position->0;
            &&& p.origin == OriginView::StartPos
            &&& p.moves == moves
            &&& p.half_komi == s.half_komi
        }),
{
    lemma_keyword_lengths();
    let ws = words(line);
    assert(ws[0] == "position"@);
    assert(ws[0] != "tei"@);
    assert(ws[0] != "isready"@);
    assert(ws[0] != "setoption"@);
    assert(ws[0] != "teinewgame"@);
    assert(ws[1] == "startpos"@);
    assert(ws[2] == "moves"@);
    assert(ws.len() != 2);
    assert(ws.skip(3) =~= moves);
}

/// `isready` is answered with `readyok` and changes nothing, whether the
/// session is idle or a search is running.
pub proof fn lemma_is_ready(s: SessionView, line: Seq<char>)
    requires
        s.started,
        words(line) == seq!["isready"@],
    ensures
        step(s, line) == Some((s, Reply::ReadyOk)),
        poll_outcome("isready"@) == Some(PollOutcome::ReadyOk),
{
    lemma_keyword_lengths();
    let w0 = words(line)[0];
    assert(w0 != "tei"@);
    assert("isready"@ != "stop"@);
    assert("isready"@ != "quit"@);
}

/// With a position set, `go wtime <a> btime <b> winc <c> binc <d>` starts a
/// search on the clock that those four numbers give, and the side to move may
/// spend a fifth of its time and half of its increment.
pub proof fn lemma_clock_go(
    s: SessionView,
    line: Seq<char>,
    a: Seq<char>,
    b: Seq<char>,
    c: Seq<char>,
    d: Seq<char>,
)
    requires
        s.started,
        s.position is Some,
        words(line) == seq!["go"@, "wtime"@, a, "btime"@, b, "winc"@, c, "binc"@, d],
        u64_text(a) is Some,
        u64_text(b) is Some,
        u64_text(c) is Some,
        u64_text(d) is Some,
    ensures
        ({
            let clock = ClockTimes {
                white_time: u64_text(a)->0,
                black_time: u64_text(b)->0,
                white_inc: u64_text(c)->0,
                black_inc: u64_text(d)->0,
            };
            &&& step(s, line) == Some((s, Reply::Search(Budget::Clock(clock))))
            &&& move_budget(clock.white_time, clock.white_inc) == u64_text(a)->0 as int / 5
                + u64_text(c)->0 as int / 2
            &&& move_budget(clock.black_time, clock.black_inc) == u64_text(b)->0 as int / 5
                + u64_text(d)->0 as int / 2
        }),
{
    lemma_keyword_lengths();
    reveal_strlit("wtime");
    reveal_strlit("btime");
    reveal_strlit("winc");
    reveal_strlit("binc");
    reveal_strlit("infinite");
    reveal_strlit("movetime");
    let ws = words(line);
    assert(ws[0] != "tei"@);
    assert(ws[0] != "isready"@);
    assert(ws[0] != "setoption"@);
    assert(ws[0] != "teinewgame"@);
    assert(ws[0] != "position"@);
    assert(ws[1] != "infinite"@);
    assert(ws[1] != "movetime"@);
    let rest = ws.skip(1);
    assert(rest =~= seq!["wtime"@, a, "btime"@, b, "winc"@, c, "binc"@, d]);
    assert("btime"@ != "wtime"@) by {
        assert("btime"@[0] != "wtime"@[0]);
    }
    assert("winc"@ != "binc"@) by {
        assert("winc"@[0] != "binc"@[0]);
    }
    assert("winc"@ != "wtime"@);
    assert("winc"@ != "btime"@);
    assert("binc"@ != "wtime"@);
    assert("binc"@ != "btime"@);
    assert(clock_fields_upto(rest, 0) == Some(no_clock_fields()));
    assert(rest[0] == "wtime"@ && rest[1] == a);
    assert(rest[2] == "btime"@ && rest[3] == b);
    assert(rest[4] == "winc"@ && rest[5] == c);
    assert(rest[6] == "binc"@ && rest[7] == d);
    assert(clock_fields_upto(rest, 1) is Some);
    assert(clock_fields_upto(rest, 2) is Some);
    assert(clock_fields_upto(rest, 3) is Some);
    assert(clock_fields_upto(rest, 4) is Some);
}

} // verus!
