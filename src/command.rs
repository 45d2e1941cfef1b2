use vstd::prelude::*;

use crate::error::{invalid_line, rejects, TeiError};
use crate::num::{parse_small_int, parse_u64, signed_text, u64_text};
use crate::text::{append_chars, copy_word, copy_words_from, split_words, views_of, word_is, words};

verus! {

/// One of the board sizes that the engine plays.
#[derive(Clone, Copy, Debug, PartialEq, Eq, Structural)]
pub enum BoardSize {
    Four,
    Five,
    Six,
}

impl BoardSize {
    pub open spec fn spec_width(self) -> u64 {
        match self {
            BoardSize::Four => 4,
            BoardSize::Five => 5,
            BoardSize::Six => 6,
        }
    }

    /// The number of squares along one edge of the board.
    #[verifier::when_used_as_spec(spec_width)]
    pub fn width(self) -> (r: u64)
        ensures
            r == self.spec_width(),
    {
        match self {
            BoardSize::Four => 4,
            BoardSize::Five => 5,
            BoardSize::Six => 6,
        }
    }
}

/// The supported board size of width `n`, if there is one.
pub open spec fn board_size_of(n: u64) -> Option<BoardSize> {
    if n == 4 {
        Some(BoardSize::Four)
    } else if n == 5 {
        Some(BoardSize::Five)
    } else if n == 6 {
        Some(BoardSize::Six)
    } else {
        None
    }
}

/// The times of both clocks, in milliseconds.
#[derive(Clone, Copy, Debug, PartialEq, Eq, Structural)]
pub struct ClockTimes {
    pub white_time: u64,
    pub black_time: u64,
    pub white_inc: u64,
    pub black_inc: u64,
}

/// How long a search may run.
#[derive(Clone, Copy, Debug, PartialEq, Eq, Structural)]
pub enum Budget {
    /// A fixed time for this move, in milliseconds.
    MoveTime(u64),
    /// Chess-clock times and increments of both sides.
    Clock(ClockTimes),
    /// No deadline: the search runs until it is stopped.
    Infinite,
}

/// The clock fields named so far in a `go` command.
#[derive(Clone, Copy, Debug, PartialEq, Eq, Structural)]
pub struct ClockFields {
    pub wtime: Option<u64>,
    pub btime: Option<u64>,
    pub winc: Option<u64>,
    pub binc: Option<u64>,
}

/// Where a position starts from.
#[derive(Debug)]
pub enum Origin {
    StartPos,
    /// A position in TPS: its three fields joined by single spaces.
    Tps(Vec<char>),
}

pub enum OriginView {
    StartPos,
    Tps(Seq<char>),
}

impl View for Origin {
    type V = OriginView;

    open spec fn view(&self) -> OriginView {
        match self {
            Origin::StartPos => OriginView::StartPos,
            Origin::Tps(t) => OriginView::Tps(t@),
        }
    }
}

/// One parsed protocol line.
#[derive(Debug)]
pub enum Command {
    Tei,
    IsReady,
    SetHalfKomi(i8),
    NewGame(BoardSize),
    Position(Origin, Vec<Vec<char>>),
    Go(Budget),
    Stop,
    Quit,
}

pub enum CommandView {
    Tei,
    IsReady,
    SetHalfKomi(i8),
    NewGame(BoardSize),
    Position(OriginView, Seq<Seq<char>>),
    Go(Budget),
    Stop,
    Quit,
}

impl View for Command {
    type V = CommandView;

    open spec fn view(&self) -> CommandView {
        match self {
            Command::Tei => CommandView::Tei,
            Command::IsReady => CommandView::IsReady,
            Command::SetHalfKomi(k) => CommandView::SetHalfKomi(*k),
            Command::NewGame(s) => CommandView::NewGame(*s),
            Command::Position(o, m) => CommandView::Position(o@, views_of(m@)),
            Command::Go(b) => CommandView::Go(*b),
            Command::Stop => CommandView::Stop,
            Command::Quit => CommandView::Quit,
        }
    }
}

pub open spec fn no_clock_fields() -> ClockFields {
    ClockFields { wtime: None, btime: None, winc: None, binc: None }
}

/// Records the pair `key value` in `c`; `None` where the key is unknown, is
/// already set, or the value is no `u64`.
pub open spec fn with_clock_field(c: ClockFields, key: Seq<char>, val: Seq<char>) -> Option<ClockFields> {
    match u64_text(val) {
        None => None,
        Some(v) => if key == "wtime"@ && c.wtime is None {
            Some(ClockFields { wtime: Some(v), ..c })
        } else if key == "btime"@ && c.btime is None {
            Some(ClockFields { btime: Some(v), ..c })
        } else if key == "winc"@ && c.winc is None {
            Some(ClockFields { winc: Some(v), ..c })
        } else if key == "binc"@ && c.binc is None {
            Some(ClockFields { binc: Some(v), ..c })
        } else {
            None
        },
    }
}

/// The clock fields of the first `k` key-value pairs of `ws`.
pub open spec fn clock_fields_upto(ws: Seq<Seq<char>>, k: nat) -> Option<ClockFields>
    decreases k,
{
    if k == 0 {
        Some(no_clock_fields())
    } else {
        match clock_fields_upto(ws, (k - 1) as nat) {
            None => None,
            Some(c) => with_clock_field(c, ws[2 * k - 2], ws[2 * k - 1]),
        }
    }
}

/// The clock of a list of key-value pairs: both times must be given, an
/// increment that is not given is zero.
pub open spec fn clock_of(ws: Seq<Seq<char>>) -> Option<ClockTimes> {
    if ws.len() % 2 != 0 {
        None
    } else {
        match clock_fields_upto(ws, (ws.len() / 2) as nat) {
            Some(c) => if c.wtime is Some && c.btime is Some {
                Some(
                    ClockTimes {
                        white_time: c.wtime->0,
                        black_time: c.btime->0,
                        white_inc: if c.winc is Some { c.winc->0 } else { 0 },
                        black_inc: if c.binc is Some { c.binc->0 } else { 0 },
                    },
                )
            } else {
                None
            },
            None => None,
        }
    }
}

/// The budget that the words of a `go` line give.
pub open spec fn go_of(ws: Seq<Seq<char>>) -> Option<Budget> {
    if ws.len() == 1 {
        Some(Budget::Infinite)
    } else if ws[1] == "infinite"@ {
        if ws.len() == 2 {
            Some(Budget::Infinite)
        } else {
            None
        }
    } else if ws[1] == "movetime"@ {
        if ws.len() == 3 && u64_text(ws[2]) is Some {
            Some(Budget::MoveTime(u64_text(ws[2])->0))
        } else {
            None
        }
    } else {
        match clock_of(ws.skip(1)) {
            Some(c) => Some(Budget::Clock(c)),
            None => None,
        }
    }
}

/// The three fields of a TPS position joined by single spaces.
pub open spec fn tps_of(a: Seq<char>, b: Seq<char>, c: Seq<char>) -> Seq<char> {
    a + seq![' '] + b + seq![' '] + c
}

/// The moves that follow the position's origin, which ends before word `rest`.
pub open spec fn moves_after(ws: Seq<Seq<char>>, rest: int) -> Option<Seq<Seq<char>>> {
    if ws.len() == rest {
        Some(Seq::empty())
    } else if ws[rest] == "moves"@ {
        Some(ws.skip(rest + 1))
    } else {
        None
    }
}

/// The command that the words of a `position` line give.
pub open spec fn position_of(ws: Seq<Seq<char>>) -> Option<CommandView> {
    if ws.len() >= 2 && ws[1] == "startpos"@ {
        match moves_after(ws, 2) {
            Some(m) => Some(CommandView::Position(OriginView::StartPos, m)),
            None => None,
        }
    } else if ws.len() >= 5 && ws[1] == "tps"@ {
        match moves_after(ws, 5) {
            Some(m) => Some(CommandView::Position(OriginView::Tps(tps_of(ws[2], ws[3], ws[4])), m)),
            None => None,
        }
    } else {
        None
    }
}

/// The half-komi that the words of a `setoption` line set.
pub open spec fn half_komi_of(ws: Seq<Seq<char>>) -> Option<i8> {
    if ws.len() == 5 && ws[1] == "name"@ && ws[2] == "HalfKomi"@ && ws[3] == "value"@ {
        match signed_text(ws[4]) {
            Some(k) => if -10 <= k <= 10 {
                Some(k as i8)
            } else {
                None
            },
            None => None,
        }
    } else {
        None
    }
}

/// The command that a line's words spell, if they spell one.
pub open spec fn command_of(ws: Seq<Seq<char>>) -> Option<CommandView> {
    if ws.len() == 0 {
        None
    } else if ws[0] == "tei"@ {
        Some(CommandView::Tei)
    } else if ws[0] == "isready"@ {
        Some(CommandView::IsReady)
    } else if ws[0] == "setoption"@ {
        match half_komi_of(ws) {
            Some(k) => Some(CommandView::SetHalfKomi(k)),
            None => None,
        }
    } else if ws[0] == "teinewgame"@ {
        if ws.len() == 2 && u64_text(ws[1]) is Some && board_size_of(u64_text(ws[1])->0) is Some {
            Some(CommandView::NewGame(board_size_of(u64_text(ws[1])->0)->0))
        } else {
            None
        }
    } else if ws[0] == "position"@ {
        position_of(ws)
    } else if ws[0] == "go"@ {
        match go_of(ws) {
            Some(b) => Some(CommandView::Go(b)),
            None => None,
        }
    } else if ws[0] == "stop"@ {
        Some(CommandView::Stop)
    } else if ws[0] == "quit"@ {
        Some(CommandView::Quit)
    } else {
        None
    }
}

} // verus!

verus! {

/// The supported board size of width `n`, if there is one.
pub fn board_size_from(n: u64) -> (r: Option<BoardSize>)
    ensures
        r == board_size_of(n),
{
    if n == 4 {
        Some(BoardSize::Four)
    } else if n == 5 {
        Some(BoardSize::Five)
    } else if n == 6 {
        Some(BoardSize::Six)
    } else {
        None
    }
}

fn add_clock_field(c: ClockFields, key: &Vec<char>, val: &Vec<char>) -> (r: Option<ClockFields>)
    ensures
        r == with_clock_field(c, key@, val@),
{
    match parse_u64(val) {
        None => None,
        Some(v) => if word_is(key, "wtime") && c.wtime.is_none() {
            Some(ClockFields { wtime: Some(v), ..c })
        } else if word_is(key, "btime") && c.btime.is_none() {
            Some(ClockFields { btime: Some(v), ..c })
        } else if word_is(key, "winc") && c.winc.is_none() {
            Some(ClockFields { winc: Some(v), ..c })
        } else if word_is(key, "binc") && c.binc.is_none() {
            Some(ClockFields { binc: Some(v), ..c })
        } else {
            None
        },
    }
}

/// Reads the key-value pairs `ws[from..]` of a `go` line as a clock.
fn parse_clock(ws: &Vec<Vec<char>>, from: usize) -> (r: Option<ClockTimes>)
    requires
        from <= ws@.len(),
    ensures
        r == clock_of(views_of(ws@).skip(from as int)),
{
    let ghost w = views_of(ws@).skip(from as int);
    if (ws.len() - from) % 2 != 0 {
        return None;
    }
    let len = ws.len();
    let n: usize = (len - from) / 2;
    let mut acc = ClockFields { wtime: None, btime: None, winc: None, binc: None };
    let mut k: usize = 0;
    while k < n
        invariant
            from <= ws@.len(),
            w == views_of(ws@).skip(from as int),
            len == ws@.len(),
            w.len() == ws@.len() - from,
            n == w.len() / 2,
            w.len() % 2 == 0,
            0 <= k <= n,
            clock_fields_upto(w, k as nat) == Some(acc),
        decreases n - k,
    {
        assert(2 * k + 2 <= w.len()) by (nonlinear_arith)
            requires
                k < n,
                n == w.len() / 2,
        ;
        let key = &ws[from + 2 * k];
        let val = &ws[from + 2 * k + 1];
        assert(key@ == w[2 * (k + 1) - 2]);
        assert(val@ == w[2 * (k + 1) - 1]);
        match add_clock_field(acc, key, val) {
            Some(c) => {
                acc = c;
            },
            None => {
                proof {
                    lemma_clock_fields_stay_none(w, (k + 1) as nat, n as nat);
                }
                return None;
            },
        }
        k = k + 1;
    }
    match (acc.wtime, acc.btime) {
        (Some(wt), Some(bt)) => Some(
            ClockTimes {
                white_time: wt,
                black_time: bt,
                white_inc: match acc.winc {
                    Some(v) => v,
                    None => 0,
                },
                black_inc: match acc.binc {
                    Some(v) => v,
                    None => 0,
                },
            },
        ),
        _ => None,
    }
}

proof fn lemma_clock_fields_stay_none(ws: Seq<Seq<char>>, k: nat, n: nat)
    requires
        k <= n,
        clock_fields_upto(ws, k) is None,
    ensures
        clock_fields_upto(ws, n) is None,
    decreases n - k,
{
    if k < n {
        lemma_clock_fields_stay_none(ws, k, (n - 1) as nat);
    }
}

/// Reads the words of a `go` line as a search budget.
fn parse_go(ws: &Vec<Vec<char>>) -> (r: Option<Budget>)
    requires
        ws@.len() >= 1,
    ensures
        r == go_of(views_of(ws@)),
{
    let ghost w = views_of(ws@);
    if ws.len() == 1 {
        Some(Budget::Infinite)
    } else if word_is(&ws[1], "infinite") {
        if ws.len() == 2 {
            Some(Budget::Infinite)
        } else {
            None
        }
    } else if word_is(&ws[1], "movetime") {
        if ws.len() == 3 {
            match parse_u64(&ws[2]) {
                Some(v) => Some(Budget::MoveTime(v)),
                None => None,
            }
        } else {
            None
        }
    } else {
        match parse_clock(ws, 1) {
            Some(c) => Some(Budget::Clock(c)),
            None => None,
        }
    }
}

/// Reads what follows a position's origin, which ends before word `rest`.
fn parse_moves_after(ws: &Vec<Vec<char>>, rest: usize) -> (r: Option<Vec<Vec<char>>>)
    requires
        rest <= ws@.len(),
    ensures
        match moves_after(views_of(ws@), rest as int) {
            Some(m) => r is Some && views_of(r->0@) == m,
            None => r is None,
        },
{
    if ws.len() == rest {
        let r: Vec<Vec<char>> = Vec::new();
        assert(views_of(r@) =~= Seq::<Seq<char>>::empty());
        Some(r)
    } else if word_is(&ws[rest], "moves") {
        Some(copy_words_from(ws, rest + 1))
    } else {
        None
    }
}

/// Reads the words of a `position` line.
fn parse_position(ws: &Vec<Vec<char>>) -> (r: Option<Command>)
    ensures
        match position_of(views_of(ws@)) {
            Some(c) => r is Some && r->0@ == c,
            None => r is None,
        },
{
    if ws.len() >= 2 && word_is(&ws[1], "startpos") {
        match parse_moves_after(ws, 2) {
            Some(m) => Some(Command::Position(Origin::StartPos, m)),
            None => None,
        }
    } else if ws.len() >= 5 && word_is(&ws[1], "tps") {
        match parse_moves_after(ws, 5) {
            Some(m) => {
                let mut tps = copy_word(&ws[2]);
                tps.push(' ');
                append_chars(&mut tps, &ws[3]);
                tps.push(' ');
                append_chars(&mut tps, &ws[4]);
                assert(tps@ =~= tps_of(ws@[2]@, ws@[3]@, ws@[4]@));
                Some(Command::Position(Origin::Tps(tps), m))
            },
            None => None,
        }
    } else {
        None
    }
}

/// Reads the words of a `setoption` line as the half-komi that it sets.
fn parse_half_komi(ws: &Vec<Vec<char>>) -> (r: Option<i8>)
    ensures
        r == half_komi_of(views_of(ws@)),
{
    if ws.len() == 5 && word_is(&ws[1], "name") && word_is(&ws[2], "HalfKomi") && word_is(
        &ws[3],
        "value",
    ) {
        parse_small_int(&ws[4], -10, 10)
    } else {
        None
    }
}

/// Parses one protocol line. A line that spells no command is rejected as
/// invalid input, carrying the line.
pub fn parse_command(line: &str) -> (r: Result<Command, TeiError>)
    ensures
        match command_of(words(line@)) {
            Some(c) => r is Ok && r->Ok_0@ == c,
            None => r is Err && rejects(r->Err_0, line@),
        },
{
    let ws = split_words(line);
    let ghost w = views_of(ws@);
    let parsed: Option<Command> = if ws.len() == 0 {
        None
    } else if word_is(&ws[0], "tei") {
        Some(Command::Tei)
    } else if word_is(&ws[0], "isready") {
        Some(Command::IsReady)
    } else if word_is(&ws[0], "setoption") {
        match parse_half_komi(&ws) {
            Some(k) => Some(Command::SetHalfKomi(k)),
            None => None,
        }
    } else if word_is(&ws[0], "teinewgame") {
        if ws.len() == 2 {
            match parse_u64(&ws[1]) {
                Some(n) => match board_size_from(n) {
                    Some(s) => Some(Command::NewGame(s)),
                    None => None,
                },
                None => None,
            }
        } else {
            None
        }
    } else if word_is(&ws[0], "position") {
        parse_position(&ws)
    } else if word_is(&ws[0], "go") {
        match parse_go(&ws) {
            Some(b) => Some(Command::Go(b)),
            None => None,
        }
    } else if word_is(&ws[0], "stop") {
        Some(Command::Stop)
    } else if word_is(&ws[0], "quit") {
        Some(Command::Quit)
    } else {
        None
    };
    match parsed {
        Some(c) => Ok(c),
        None => Err(invalid_line(line)),
    }
}

} // verus!
