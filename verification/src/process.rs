//! Running game processes the control panel can attach to.
use vstd::prelude::*;
use vstd::string::*;
use crate::game::{executable_name, supported_executable, Game};
use crate::text::{decimal, u32_to_string};

verus! {

/// A running process of a supported game.
#[derive(Clone, Debug)]
pub struct GameProcess {
    pub pid: u32,
    pub name: String,
}

/// Two processes are the same when their process ids are.
impl PartialEq for GameProcess {
    fn eq(&self, other: &Self) -> (r: bool) {
        self.pid == other.pid
    }
}

impl vstd::std_specs::cmp::PartialEqSpecImpl for GameProcess {
    open spec fn obeys_eq_spec() -> bool {
        true
    }

    open spec fn eq_spec(&self, other: &Self) -> bool {
        self.pid == other.pid
    }
}

/// Process id and name of a process.
pub open spec fn process_entry(p: GameProcess) -> (u32, Seq<char>) {
    (p.pid, p.name@)
}

/// Process id and name of a listed process.
pub open spec fn listed_entry(p: (u32, String)) -> (u32, Seq<char>) {
    (p.0, p.1@)
}

/// The label under which a process is offered: its name and id.
pub open spec fn process_label(p: GameProcess) -> Seq<char> {
    p.name@ + " ("@ + decimal(p.pid as nat) + ")"@
}

impl GameProcess {
    /// The label under which the process is offered.
    pub fn label(&self) -> (s: String)
        ensures
            s@ == process_label(*self),
    {
        let mut s = self.name.clone();
        s.append(" (");
        let id = u32_to_string(self.pid);
        s.append(id.as_str());
        s.append(")");
        s
    }
}

/// Listed processes have distinct ids.
pub open spec fn distinct_ids(procs: Seq<(u32, String)>) -> bool {
    forall|i: int, j: int| 0 <= i < j < procs.len() ==> #[trigger] procs[i].0 != #[trigger] procs[j].0
}

/// Processes ordered by decreasing id.
pub open spec fn sorted_by_decreasing_id(ps: Seq<GameProcess>) -> bool {
    forall|i: int, j: int| 0 <= i < j < ps.len() ==> #[trigger] ps[i].pid > #[trigger] ps[j].pid
}

/// Some listed process among the first `n` runs the game's executable and has
/// this id and name.
pub open spec fn listed_supported(game: Game, procs: Seq<(u32, String)>, n: int, e: (u32, Seq<char>)) -> bool {
    exists|k: int| 0 <= k < n && listed_entry(#[trigger] procs[k]) == e && e.1 == executable_name(game)
}

/// Some process of the sequence has this id and name.
pub open spec fn has_entry(ps: Seq<GameProcess>, e: (u32, Seq<char>)) -> bool {
    exists|i: int| 0 <= i < ps.len() && process_entry(#[trigger] ps[i]) == e
}

/// The running processes of the game, newest process id first, among the
/// processes listed by the operating system (id and executable name, each id
/// once).
pub fn running_games(game: Game, procs: &Vec<(u32, String)>) -> (games: Vec<GameProcess>)
    requires
        distinct_ids(procs@),
    ensures
        sorted_by_decreasing_id(games@),
        forall|e: (u32, Seq<char>)| has_entry(games@, e) <==> listed_supported(game, procs@, procs@.len() as int, e),
{
    let exe = supported_executable(game);
    let mut games: Vec<GameProcess> = Vec::new();
    let mut i: usize = 0;
    while i < procs.len()
        invariant
            0 <= i <= procs@.len(),
            distinct_ids(procs@),
            exe@ == executable_name(game),
            sorted_by_decreasing_id(games@),
            forall|e: (u32, Seq<char>)| has_entry(games@, e) <==> listed_supported(game, procs@, i as int, e),
        decreases procs@.len() - i,
    {
        let pid = procs[i].0;
        let name = procs[i].1.clone();
        if name == exe {
            // Find the first process with a lower id.
            let mut j: usize = 0;
            while j < games.len() && games[j].pid > pid
                invariant
                    0 <= j <= games@.len(),
                    forall|k: int| 0 <= k < j ==> #[trigger] games@[k].pid > pid,
                decreases games@.len() - j,
            {
                j += 1;
            }
            let ghost before = games@;
            // No process seen so far has this id.
            assert forall|k: int| 0 <= k < before.len() implies #[trigger] before[k].pid != pid by {
                let e = process_entry(before[k]);
                assert(has_entry(before, e));
                let m = choose|m: int| 0 <= m < i && listed_entry(#[trigger] procs@[m]) == e && e.1 == executable_name(game);
                assert(procs@[m].0 != procs@[i as int].0);
            }
            games.insert(j, GameProcess { pid, name });
            assert forall|a: int, b: int| 0 <= a < b < games@.len() implies #[trigger] games@[a].pid > #[trigger] games@[b].pid by {
                if a < j && b > j {
                    assert(games@[a] == before[a]);
                    assert(games@[b] == before[b - 1]);
                } else if b == j {
                    assert(games@[a] == before[a]);
                } else if a == j {
                    assert(games@[b] == before[b - 1]);
                    if j < before.len() {
                        assert(before[j as int].pid <= pid);
                        assert(before[j as int].pid != pid);
                        if b - 1 > j {
                            assert(before[j as int].pid > before[b - 1].pid);
                        }
                    }
                } else if b < j {
                    assert(games@[a] == before[a]);
                    assert(games@[b] == before[b]);
                } else {
                    assert(games@[a] == before[a - 1]);
                    assert(games@[b] == before[b - 1]);
                }
            }
            assert forall|e: (u32, Seq<char>)| has_entry(games@, e) <==> listed_supported(game, procs@, i + 1, e) by {
                if has_entry(games@, e) {
                    let x = choose|x: int| 0 <= x < games@.len() && process_entry(#[trigger] games@[x]) == e;
                    if x == j {
                        assert(listed_entry(procs@[i as int]) == e);
                    } else if x < j {
                        assert(games@[x] == before[x]);
                        assert(has_entry(before, e));
                    } else {
                        assert(games@[x] == before[x - 1]);
                        assert(has_entry(before, e));
                    }
                }
                if listed_supported(game, procs@, i + 1, e) {
                    let m = choose|m: int| 0 <= m < i + 1 && listed_entry(#[trigger] procs@[m]) == e && e.1 == executable_name(game);
                    if m == i {
                        assert(process_entry(games@[j as int]) == e);
                    } else {
                        assert(listed_supported(game, procs@, i as int, e));
                        assert(has_entry(before, e));
                        let x = choose|x: int| 0 <= x < before.len() && process_entry(#[trigger] before[x]) == e;
                        if x < j {
                            assert(games@[x] == before[x]);
                        } else {
                            assert(games@[x + 1] == before[x]);
                        }
                    }
                }
            }
        } else {
            assert forall|e: (u32, Seq<char>)| has_entry(games@, e) <==> listed_supported(game, procs@, i + 1, e) by {
                if listed_supported(game, procs@, i + 1, e) {
                    let m = choose|m: int| 0 <= m < i + 1 && listed_entry(#[trigger] procs@[m]) == e && e.1 == executable_name(game);
                    if m == i {
                        assert(name@ != exe@);
                    } else {
                        assert(listed_supported(game, procs@, i as int, e));
                    }
                }
            }
        }
        i += 1;
    }
    games
}

} // verus!
