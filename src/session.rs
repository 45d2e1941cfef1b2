use vstd::prelude::*;

use crate::command::{
    command_of, parse_command, BoardSize, Budget, Command, CommandView, Origin, OriginView,
};
use crate::error::{invalid_line, rejects, TeiError};
use crate::text::{views_of, words};

verus! {

/// How the engine is set up for one deployment.
#[derive(Clone, Copy, Debug, PartialEq, Eq, Structural)]
pub struct EngineConfig {
    /// Search with the deeper-rollout settings profile.
    pub slatebot: bool,
}

/// The position that the controller last set: its board size, the half-komi
/// in force when it was set, where it starts and the moves played from there.
#[derive(Debug)]
pub struct PositionSetup {
    pub size: BoardSize,
    pub half_komi: i8,
    pub origin: Origin,
    pub moves: Vec<Vec<char>>,
}

pub struct SetupView {
    pub size: BoardSize,
    pub half_komi: i8,
    pub origin: OriginView,
    pub moves: Seq<Seq<char>>,
}

impl View for PositionSetup {
    type V = SetupView;

    open spec fn view(&self) -> SetupView {
        SetupView {
            size: self.size,
            half_komi: self.half_komi,
            origin: self.origin@,
            moves: views_of(self.moves@),
        }
    }
}

/// What the protocol loop does after a line has been handled.
#[derive(Clone, Copy, Debug, PartialEq, Eq, Structural)]
pub enum Reply {
    /// Nothing to send.
    Nothing,
    /// Send the identification lines.
    Handshake,
    /// Send `readyok`.
    ReadyOk,
    /// Build the position that the session now holds.
    NewPosition,
    /// Search the session's position within the budget.
    Search(Budget),
    /// End the session.
    Quit,
}

/// The configuration that one protocol session accumulates.
#[derive(Debug)]
pub struct Session {
    config: EngineConfig,
    started: bool,
    half_komi: i8,
    size: Option<BoardSize>,
    position: Option<PositionSetup>,
}

pub struct SessionView {
    pub config: EngineConfig,
    pub started: bool,
    pub half_komi: i8,
    pub size: Option<BoardSize>,
    pub position: Option<SetupView>,
}

impl View for Session {
    type V = SessionView;

    closed spec fn view(&self) -> SessionView {
        SessionView {
            config: self.config,
            started: self.started,
            half_komi: self.half_komi,
            size: self.size,
            position: match self.position {
                Some(p) => Some(p@),
                None => None,
            },
        }
    }
}

/// A position is held only for the board size in force.
pub open spec fn session_wf(s: SessionView) -> bool {
    s.position matches Some(p) ==> s.size == Some(p.size)
}

/// The session after one line and what follows from it; `None` where the line
/// is invalid input. Before the handshake every line but `tei` is passed over.
pub open spec fn step(s: SessionView, line: Seq<char>) -> Option<(SessionView, Reply)> {
    let c = command_of(words(line));
    if !s.started {
        if c == Some(CommandView::Tei) {
            Some((SessionView { started: true, ..s }, Reply::Handshake))
        } else {
            Some((s, Reply::Nothing))
        }
    } else {
        match c {
            None => None,
            Some(CommandView::Tei) => None,
            Some(CommandView::IsReady) => Some((s, Reply::ReadyOk)),
            Some(CommandView::SetHalfKomi(k)) => Some((SessionView { half_komi: k, ..s }, Reply::Nothing)),
            Some(CommandView::NewGame(b)) => Some(
                (SessionView { size: Some(b), position: None, ..s }, Reply::Nothing),
            ),
            Some(CommandView::Position(o, m)) => match s.size {
                None => None,
                Some(b) => Some(
                    (
                        SessionView {
                            position: Some(
                                SetupView { size: b, half_komi: s.half_komi, origin: o, moves: m },
                            ),
                            ..s
                        },
                        Reply::NewPosition,
                    ),
                ),
            },
            Some(CommandView::Go(budget)) => if s.position is Some {
                Some((s, Reply::Search(budget)))
            } else {
                None
            },
            Some(CommandView::Stop) => Some((s, Reply::Nothing)),
            Some(CommandView::Quit) => Some((s, Reply::Quit)),
        }
    }
}

impl Session {
    pub closed spec fn wf(&self) -> bool {
        session_wf(self@)
    }

    /// A session that waits for the `tei` handshake, with half-komi 0 and no
    /// board size.
    pub fn new(config: EngineConfig) -> (r: Session)
        ensures
            r.wf(),
            r@ == (SessionView {
                config,
                started: false,
                half_komi: 0,
                size: None,
                position: None,
            }),
    {
        Session { config, started: false, half_komi: 0, size: None, position: None }
    }

    pub fn config(&self) -> (r: EngineConfig)
        ensures
            r == self@.config,
    {
        self.config
    }

    /// Whether the handshake has taken place.
    pub fn started(&self) -> (r: bool)
        ensures
            r == self@.started,
    {
        self.started
    }

    pub fn half_komi(&self) -> (r: i8)
        ensures
            r == self@.half_komi,
    {
        self.half_komi
    }

    pub fn board_size(&self) -> (r: Option<BoardSize>)
        ensures
            r == self@.size,
    {
        self.size
    }

    pub fn position(&self) -> (r: Option<&PositionSetup>)
        ensures
            match self@.position {
                Some(p) => r is Some && r->0@ == p,
                None => r is None,
            },
    {
        match &self.position {
            Some(p) => Some(p),
            None => None,
        }
    }

    /// Handles one inbound line: updates the session as `step` says and tells
    /// the caller what to do next. An invalid line leaves the session as it was
    /// and is returned as the error.
    pub fn handle_line(&mut self, line: &str) -> (r: Result<Reply, TeiError>)
        requires
            old(self).wf(),
        ensures
            final(self).wf(),
            match step(old(self)@, line@) {
                Some((s, reply)) => r == Ok::<Reply, TeiError>(reply) && final(self)@ == s,
                None => r is Err && rejects(r->Err_0, line@) && final(self)@ == old(self)@,
            },
    {
        let parsed = parse_command(line);
        if !self.started {
            return match parsed {
                Ok(Command::Tei) => {
                    self.started = true;
                    Ok(Reply::Handshake)
                },
                _ => Ok(Reply::Nothing),
            };
        }
        match parsed {
            Err(e) => Err(e),
            Ok(Command::Tei) => Err(invalid_line(line)),
            Ok(Command::IsReady) => Ok(Reply::ReadyOk),
            Ok(Command::SetHalfKomi(k)) => {
                self.half_komi = k;
                Ok(Reply::Nothing)
            },
            Ok(Command::NewGame(b)) => {
                self.size = Some(b);
                self.position = None;
                Ok(Reply::Nothing)
            },
            Ok(Command::Position(origin, moves)) => match self.size {
                None => Err(invalid_line(line)),
                Some(b) => {
                    self.position = Some(
                        PositionSetup { size: b, half_komi: self.half_komi, origin, moves },
                    );
                    Ok(Reply::NewPosition)
                },
            },
            Ok(Command::Go(budget)) => if self.position.is_some() {
                Ok(Reply::Search(budget))
            } else {
                Err(invalid_line(line))
            },
            Ok(Command::Stop) => Ok(Reply::Nothing),
            Ok(Command::Quit) => Ok(Reply::Quit),
        }
    }
}

} // verus!

verus! {

/// The lines that answer the `tei` handshake, in order.
pub fn handshake_lines() -> (r: Vec<String>)
    ensures
        r@.len() == 4,
        r@[0]@ == "id name Tiltak"@,
        r@[1]@ == "id author Morten Lohne"@,
        r@[2]@ == "option name HalfKomi type spin default 0 min -10 max 10"@,
        r@[3]@ == "teiok"@,
{
    let mut r: Vec<String> = Vec::new();
    r.push("id name Tiltak".to_owned());
    r.push("id author Morten Lohne".to_owned());
    r.push("option name HalfKomi type spin default 0 min -10 max 10".to_owned());
    r.push("teiok".to_owned());
    r
}

/// The answer to `isready`.
pub fn ready_line() -> (r: String)
    ensures
        r@ == "readyok"@,
{
    "readyok".to_owned()
}

} // verus!
