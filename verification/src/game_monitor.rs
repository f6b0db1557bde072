//! The monitor: the state that is kept between two looks at the game, and the decision
//! taken at each look. The caller finds the process, reads its memory, sleeps and
//! sends the messages; every decision is taken here.

use crate::harvest::{
    assemble, candidate_at, read_session_score, session_score_at, TrophyCandidate,
    TrophyCandidateView,
};
use crate::memory::{lemma_advance_zero, MemorySource};
use crate::offsets::{
    chain_target, harvest_links, is_plausible_address, plausible_address, username_links, Chain,
    Offsets, HARVEST_RESIDUAL, NO_SESSION, USERNAME_RESIDUAL,
};
use crate::reader::{read_float, read_string, text_at, word_at};
use crate::text::{hex, push_hex};
use vstd::prelude::*;
use vstd::string::StringExecFns;

verus! {

/// Seconds to wait before the process is looked for again, or the game probed again.
pub const RETRY_SECONDS: u64 = 2;

/// Seconds between two looks at a running session.
pub const POLL_SECONDS: u64 = 3;

/// The bit pattern of the single-precision number 0.0.
pub const ZERO_WEIGHT: u32 = 0;

/// Whether a single-precision number, given as its bit pattern, is something other
/// than zero. Zero has two patterns, one for each sign.
pub open spec fn nonzero(pattern: u32) -> bool {
    pattern != 0 && pattern != 0x8000_0000
}

/// Whether a bit pattern stands for a number other than zero.
pub fn is_nonzero(pattern: u32) -> (answer: bool)
    ensures
        answer == nonzero(pattern),
{
    pattern != 0 && pattern != 0x8000_0000
}

/// Where the monitor stands.
#[derive(Clone, Copy, Debug, PartialEq, Eq, Structural)]
pub enum Phase {
    /// The game's process has not been found yet.
    SearchingForProcess,
    /// The process is known; the game has not finished loading.
    WaitingForPlayableState,
    /// The harvest record is known and is looked at in turn.
    Polling,
    /// The session is over. Nothing more comes out of this monitor.
    ProcessClosed,
}

/// All that the monitor remembers from one look to the next.
#[derive(Clone, Copy, Debug)]
pub struct Monitor {
    pub phase: Phase,
    /// Where the game's module is loaded.
    pub base_address: u64,
    /// Where the harvest record stands.
    pub harvest_base_address: u64,
    /// Whether a running session has been seen since the process was found.
    pub game_open: bool,
    /// The session score seen at the last look, if there was one since the process was found.
    pub last_session_score: Option<i32>,
    /// The weight seen at the last look, as its bit pattern; that of 0.0 before the first.
    pub last_weight: u32,
}

/// What one step asks of the caller.
#[derive(Debug)]
pub struct Tick {
    /// A line for the status channel.
    pub status: Option<String>,
    /// The player's name, for the user channel.
    pub user: Option<String>,
    /// A harvest that was decoded and is to be registered.
    pub candidate: Option<TrophyCandidate>,
    /// How long to sleep before the next step.
    pub pause_seconds: u64,
}

/// What a tick says, with its texts as sequences of characters.
pub struct TickView {
    pub status: Option<Seq<char>>,
    pub user: Option<Seq<char>>,
    pub candidate: Option<TrophyCandidateView>,
    pub pause_seconds: u64,
}

impl View for Tick {
    type V = TickView;

    open spec fn view(&self) -> TickView {
        TickView {
            status: match self.status {
                Some(text) => Some(text@),
                None => None,
            },
            user: match self.user {
                Some(text) => Some(text@),
                None => None,
            },
            candidate: match self.candidate {
                Some(candidate) => Some(candidate@),
                None => None,
            },
            pause_seconds: self.pause_seconds,
        }
    }
}

impl TickView {
    /// The tick that asks for nothing.
    pub open spec fn idle() -> TickView {
        TickView { status: None, user: None, candidate: None, pause_seconds: 0 }
    }
}

/// The player's name as it stands in memory.
pub open spec fn username_at(memory: Map<int, u8>, base_address: u64) -> Seq<char> {
    text_at(memory, chain_target(memory, base_address, username_links(), USERNAME_RESIDUAL))
}

/// The address of the harvest record.
pub open spec fn harvest_address(memory: Map<int, u8>, base_address: u64) -> u64 {
    chain_target(memory, base_address, harvest_links(), HARVEST_RESIDUAL)
}

/// The line that reports the addresses at which the game was found.
pub open spec fn attached_message(base_address: u64, harvest: u64) -> Seq<char> {
    "Attached to game: "@ + hex(base_address as nat) + " "@ + hex(harvest as nat)
        + ". Waiting for kill."@
}

impl Monitor {
    /// A monitor that has yet to find the process.
    pub open spec fn initial() -> Monitor {
        Monitor {
            phase: Phase::SearchingForProcess,
            base_address: 0,
            harvest_base_address: 0,
            game_open: false,
            last_session_score: None,
            last_weight: ZERO_WEIGHT,
        }
    }

    /// A monitor that has yet to find the process.
    pub fn new() -> (monitor: Monitor)
        ensures
            monitor == Monitor::initial(),
    {
        Monitor {
            phase: Phase::SearchingForProcess,
            base_address: 0,
            harvest_base_address: 0,
            game_open: false,
            last_session_score: None,
            last_weight: ZERO_WEIGHT,
        }
    }

    /// The state after a search for the process: with the module's base if it was
    /// found, and nothing remembered of any earlier session.
    pub open spec fn after_search(self, found: Option<u64>) -> Monitor {
        match found {
            Some(base_address) if self.phase == Phase::SearchingForProcess => Monitor {
                phase: Phase::WaitingForPlayableState,
                base_address,
                harvest_base_address: 0,
                game_open: false,
                last_session_score: None,
                last_weight: ZERO_WEIGHT,
            },
            _ => self,
        }
    }

    /// What a search for the process asks of the caller.
    pub open spec fn search_report(self, found: Option<u64>) -> TickView {
        if self.phase == Phase::SearchingForProcess && found is None {
            TickView {
                status: Some("Waiting for game..."@),
                user: None,
                candidate: None,
                pause_seconds: RETRY_SECONDS,
            }
        } else {
            TickView::idle()
        }
    }

    /// Takes in the outcome of a search for the process: the base address of its
    /// module, or nothing. That the process is absent is no fault: the caller is told
    /// to wait and to look again.
    pub fn process_searched(&mut self, found: Option<u64>) -> (tick: Tick)
        ensures
            *final(self) == old(self).after_search(found),
            tick@ == old(self).search_report(found),
    {
        if self.phase != Phase::SearchingForProcess {
            return Tick { status: None, user: None, candidate: None, pause_seconds: 0 };
        }
        match found {
            Some(base_address) => {
                self.phase = Phase::WaitingForPlayableState;
                self.base_address = base_address;
                self.harvest_base_address = 0;
                self.game_open = false;
                self.last_session_score = None;
                self.last_weight = ZERO_WEIGHT;
                Tick { status: None, user: None, candidate: None, pause_seconds: 0 }
            },
            None => Tick {
                status: Some(String::from_str("Waiting for game...")),
                user: None,
                candidate: None,
                pause_seconds: RETRY_SECONDS,
            },
        }
    }

    /// The state after a probe of the game: polling, if the harvest record was found
    /// at a plausible address.
    pub open spec fn after_probe(self, memory: Map<int, u8>) -> Monitor {
        let harvest = harvest_address(memory, self.base_address);
        if self.phase == Phase::WaitingForPlayableState && plausible_address(harvest) {
            Monitor { phase: Phase::Polling, harvest_base_address: harvest, ..self }
        } else {
            self
        }
    }

    /// What a probe of the game asks of the caller.
    pub open spec fn probe_report(self, memory: Map<int, u8>) -> TickView {
        let harvest = harvest_address(memory, self.base_address);
        if self.phase != Phase::WaitingForPlayableState {
            TickView::idle()
        } else if plausible_address(harvest) {
            TickView {
                status: Some(attached_message(self.base_address, harvest)),
                user: None,
                candidate: None,
                pause_seconds: 0,
            }
        } else {
            TickView {
                status: Some("Waiting for game to be fully loaded..."@),
                user: None,
                candidate: None,
                pause_seconds: RETRY_SECONDS,
            }
        }
    }

    /// Looks for the harvest record. While the game is still loading, the chain leads
    /// nowhere plausible, and the caller is told to wait and to probe again.
    pub fn probe<M: MemorySource>(&mut self, memory: &M) -> (tick: Tick)
        ensures
            *final(self) == old(self).after_probe(memory.bytes()),
            tick@ == old(self).probe_report(memory.bytes()),
    {
        if self.phase != Phase::WaitingForPlayableState {
            return Tick { status: None, user: None, candidate: None, pause_seconds: 0 };
        }
        let chain = Chain::harvest();
        let harvest = chain.resolve(memory, self.base_address);
        if is_plausible_address(harvest) {
            self.phase = Phase::Polling;
            self.harvest_base_address = harvest;
            let mut status = String::from_str("Attached to game: ");
            push_hex(&mut status, self.base_address);
            status.append(" ");
            push_hex(&mut status, harvest);
            status.append(". Waiting for kill.");
            Tick { status: Some(status), user: None, candidate: None, pause_seconds: 0 }
        } else {
            Tick {
                status: Some(String::from_str("Waiting for game to be fully loaded...")),
                user: None,
                candidate: None,
                pause_seconds: RETRY_SECONDS,
            }
        }
    }

    /// Whether this look ends the session: the score reads "no session" after a
    /// running session had been seen.
    pub open spec fn closes(self, memory: Map<int, u8>) -> bool {
        self.phase == Phase::Polling && self.game_open && session_score_at(
            memory,
            self.harvest_base_address,
        ) == NO_SESSION
    }

    /// Whether this look finds a new harvest: a session is running, the session score
    /// differs from the one seen at the last look, and the weight is neither zero nor
    /// the one seen at the last look. Before the first look, any score counts as new.
    pub open spec fn triggers(self, memory: Map<int, u8>) -> bool {
        let score = session_score_at(memory, self.harvest_base_address);
        let weight = word_at(memory, self.harvest_base_address, Offsets::known().weight);
        &&& self.phase == Phase::Polling
        &&& score != NO_SESSION
        &&& self.last_session_score != Some(score)
        &&& nonzero(weight)
        &&& weight != self.last_weight
    }

    /// The state after a look at the game.
    pub open spec fn after_poll(self, memory: Map<int, u8>) -> Monitor {
        let score = session_score_at(memory, self.harvest_base_address);
        let weight = word_at(memory, self.harvest_base_address, Offsets::known().weight);
        if self.phase != Phase::Polling {
            self
        } else if self.closes(memory) {
            Monitor { phase: Phase::ProcessClosed, ..self }
        } else {
            Monitor {
                game_open: self.game_open || score != NO_SESSION,
                last_session_score: Some(score),
                last_weight: weight,
                ..self
            }
        }
    }

    /// What a look at the game asks of the caller.
    pub open spec fn poll_report(self, memory: Map<int, u8>) -> TickView {
        if self.phase != Phase::Polling {
            TickView::idle()
        } else if self.closes(memory) {
            TickView {
                status: Some("Game has been closed. No longer tracking."@),
                user: None,
                candidate: None,
                pause_seconds: 0,
            }
        } else {
            TickView {
                status: None,
                user: Some(username_at(memory, self.base_address)),
                candidate: if self.triggers(memory) {
                    Some(candidate_at(memory, self.base_address, self.harvest_base_address))
                } else {
                    None
                },
                pause_seconds: POLL_SECONDS,
            }
        }
    }

    /// Looks at the game once. The session score and the weight that are seen are
    /// remembered for the next look, whatever becomes of the harvest.
    pub fn poll<M: MemorySource>(&mut self, memory: &M) -> (tick: Tick)
        ensures
            *final(self) == old(self).after_poll(memory.bytes()),
            tick@ == old(self).poll_report(memory.bytes()),
            tick.candidate is Some <==> old(self).triggers(memory.bytes()),
            old(self).closes(memory.bytes()) ==> final(self).phase == Phase::ProcessClosed
                && tick.candidate is None && tick.user is None,
            old(self).phase == Phase::ProcessClosed ==> *final(self) == *old(self)
                && tick.status is None && tick.candidate is None && tick.user is None,
    {
        if self.phase != Phase::Polling {
            return Tick { status: None, user: None, candidate: None, pause_seconds: 0 };
        }
        let offsets = Offsets::new();
        let session_score = read_session_score(memory, self.harvest_base_address);
        if session_score == NO_SESSION && self.game_open {
            self.phase = Phase::ProcessClosed;
            return Tick {
                status: Some(String::from_str("Game has been closed. No longer tracking.")),
                user: None,
                candidate: None,
                pause_seconds: 0,
            };
        }
        if session_score != NO_SESSION {
            self.game_open = true;
        }
        let chain = Chain::username();
        let username_address = chain.resolve(memory, self.base_address);
        proof {
            lemma_advance_zero(username_address);
        }
        let username = read_string(memory, username_address, 0x0, false);
        let weight = read_float(memory, self.harvest_base_address, offsets.weight);
        let fresh = match self.last_session_score {
            Some(last) => last != session_score,
            None => true,
        };
        let candidate = if self.game_open && fresh && is_nonzero(weight) && weight
            != self.last_weight {
            Some(assemble(memory, self.base_address, self.harvest_base_address))
        } else {
            None
        };
        self.last_session_score = Some(session_score);
        self.last_weight = weight;
        Tick { status: None, user: Some(username), candidate, pause_seconds: POLL_SECONDS }
    }
}

/// A look at the game yields a candidate only if the session score differs from the
/// one seen at the last look and the weight is neither zero nor the one seen at the
/// last look.
pub proof fn law_candidate_needs_change(monitor: Monitor, memory: Map<int, u8>)
    requires
        monitor.poll_report(memory).candidate is Some,
    ensures
        monitor.phase == Phase::Polling,
        monitor.last_session_score != Some(session_score_at(memory, monitor.harvest_base_address)),
        nonzero(word_at(memory, monitor.harvest_base_address, Offsets::known().weight)),
        word_at(memory, monitor.harvest_base_address, Offsets::known().weight) != monitor.last_weight,
{
}

/// When the session score reads "no session" after a running session was seen, the
/// monitor closes, and the look yields neither a candidate nor the player's name.
pub proof fn law_end_of_session_closes(monitor: Monitor, memory: Map<int, u8>)
    requires
        monitor.phase == Phase::Polling,
        monitor.game_open,
        session_score_at(memory, monitor.harvest_base_address) == NO_SESSION,
    ensures
        monitor.after_poll(memory).phase == Phase::ProcessClosed,
        monitor.poll_report(memory).candidate is None,
        monitor.poll_report(memory).user is None,
{
}

/// A closed monitor stays closed and asks for nothing, whatever it is given.
pub proof fn law_closed_is_final(monitor: Monitor, memory: Map<int, u8>, found: Option<u64>)
    requires
        monitor.phase == Phase::ProcessClosed,
    ensures
        monitor.after_poll(memory) == monitor,
        monitor.after_probe(memory) == monitor,
        monitor.after_search(found) == monitor,
        monitor.poll_report(memory) == TickView::idle(),
        monitor.probe_report(memory) == TickView::idle(),
        monitor.search_report(found) == TickView::idle(),
{
}

} // verus!
