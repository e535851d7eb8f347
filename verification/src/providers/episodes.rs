//! Moving through a show's episodes: where playback starts for a menu
//! choice, which episodes a pick covers, and which choices are offered
//! afterwards.

use crate::failure::Abort;
use crate::providers::allanime::strings_view;
use crate::text::{chars_eq, chars_of, join, lines, lines_exec, str_eq};
use vstd::prelude::*;

verus! {

/// Where a menu choice starts playback.
pub enum StartAt {
    /// The episode at this position.
    At(int),
    /// The user picks episodes.
    Ask,
    /// The program stops.
    Stop(Abort),
}

/// Where `choice` starts, with `index` the position after the last episode
/// played: `next` there, `previous` two back, `replay` one back; anything
/// else asks.
pub open spec fn start_spec(choice: Seq<char>, len: int, index: int) -> StartAt {
    let target = if choice == "next"@ {
        index
    } else if choice == "previous"@ {
        index - 2
    } else {
        index - 1
    };
    if choice != "next"@ && choice != "previous"@ && choice != "replay"@ {
        StartAt::Ask
    } else if 0 <= target < len {
        StartAt::At(target)
    } else {
        StartAt::Stop(Abort::EpisodeOutOfRange)
    }
}

/// Where playback starts.
pub enum Start {
    /// Start from the episode with this name.
    Episode(String),
    /// Ask the user to pick episodes.
    Ask,
    /// The program stops.
    Abort(Abort),
}

/// Where `choice` starts playback, `index` being the position after the
/// last episode played.
pub fn start_of(choice: &str, episodes: &Vec<String>, index: usize) -> (r: Start)
    ensures
        match start_spec(choice@, episodes@.len() as int, index as int) {
            StartAt::At(k) => r matches Start::Episode(e) && e@ == episodes@[k]@,
            StartAt::Ask => r is Ask,
            StartAt::Stop(a) => r matches Start::Abort(b) && a == b,
        },
{
    let target: Option<usize> = if str_eq(choice, "next") {
        Some(index)
    } else if str_eq(choice, "previous") {
        if index >= 2 {
            Some(index - 2)
        } else {
            None
        }
    } else if str_eq(choice, "replay") {
        if index >= 1 {
            Some(index - 1)
        } else {
            None
        }
    } else {
        return Start::Ask;
    };
    match target {
        Some(k) => if k < episodes.len() {
            Start::Episode(episodes[k].clone())
        } else {
            Start::Abort(Abort::EpisodeOutOfRange)
        },
        None => Start::Abort(Abort::EpisodeOutOfRange),
    }
}

/// The first position at or after `i` that holds episode `e`.
pub open spec fn find_episode(eps: Seq<Seq<char>>, e: Seq<char>, i: int) -> Option<int>
    decreases eps.len() - i,
{
    if i < 0 || i >= eps.len() {
        None
    } else if eps[i] == e {
        Some(i)
    } else {
        find_episode(eps, e, i + 1)
    }
}

/// The episodes a pick covers: from the first picked through the next
/// occurrence of the last picked (none when the last picked line is
/// empty). When the last picked does not follow, playback runs to the end
/// of the list and then stops the program (`true`).
pub open spec fn range_spec(picked: Seq<char>, eps: Seq<Seq<char>>) -> Result<(int, int, bool), Abort> {
    let ls = lines(picked);
    if ls.len() == 0 {
        Err(Abort::NoEpisodeChosen)
    } else {
        match find_episode(eps, ls[0], 0) {
            None => Err(Abort::EpisodeNotListed),
            Some(f) => if ls.last().len() == 0 {
                Ok((f, 0, false))
            } else {
                match find_episode(eps, ls.last(), f) {
                    Some(j) => Ok((f, j - f + 1, false)),
                    None => Ok((f, eps.len() - f, true)),
                }
            },
        }
    }
}

/// Picking a first and a last episode (the last listed after the first)
/// plays every episode from the first through the last, and nothing more.
pub proof fn lemma_pick_plays_first_through_last(
    picked: Seq<char>,
    eps: Seq<Seq<char>>,
    f: int,
    j: int,
)
    requires
        lines(picked).len() > 0,
        lines(picked).last().len() > 0,
        find_episode(eps, lines(picked)[0], 0) == Some(f),
        find_episode(eps, lines(picked).last(), f) == Some(j),
    ensures
        range_spec(picked, eps) == Ok::<(int, int, bool), Abort>((f, j - f + 1, false)),
{
}

/// The episodes a pick covers: `count` episodes from position `first`;
/// when `overruns`, the program stops after them.
pub struct Range {
    pub first: usize,
    pub count: usize,
    pub overruns: bool,
}

/// The first position at or after `i` that holds `e`.
fn find_episode_exec(eps: &Vec<String>, e: &[char], i: usize) -> (r: Option<usize>)
    ensures
        match r {
            Some(j) => find_episode(strings_view(eps@), e@, i as int) == Some(j as int) && i <= j
                < eps@.len(),
            None => find_episode(strings_view(eps@), e@, i as int) is None,
        },
{
    let ghost ev = strings_view(eps@);
    let mut k = i;
    while k < eps.len()
        invariant
            ev == strings_view(eps@),
            i <= k,
            find_episode(ev, e@, i as int) == find_episode(ev, e@, k as int),
        decreases eps.len() - k,
    {
        if chars_eq(&chars_of(eps[k].as_str()), e) {
            return Some(k);
        }
        k = k + 1;
    }
    None
}

/// Which episodes the picked lines cover.
pub fn play_range(picked: &str, episodes: &Vec<String>) -> (r: Result<Range, Abort>)
    ensures
        match range_spec(picked@, strings_view(episodes@)) {
            Ok(t) => r matches Ok(g) && g.first == t.0 && g.count == t.1 && g.overruns == t.2
                && g.first + g.count <= episodes@.len(),
            Err(a) => r == Err::<Range, Abort>(a),
        },
{
    let n = episodes.len();
    let ls = lines_exec(&chars_of(picked));
    if ls.len() == 0 {
        return Err(Abort::NoEpisodeChosen);
    }
    let first = match find_episode_exec(episodes, &ls[0], 0) {
        None => return Err(Abort::EpisodeNotListed),
        Some(f) => f,
    };
    let last = &ls[ls.len() - 1];
    if last.len() == 0 {
        return Ok(Range { first, count: 0, overruns: false });
    }
    match find_episode_exec(episodes, last, first) {
        Some(j) => Ok(Range { first, count: (j + 1) - first, overruns: false }),
        None => Ok(Range { first, count: episodes.len() - first, overruns: true }),
    }
}

impl Range {
    /// The positions of the episodes the range covers, in order.
    pub fn positions(&self) -> (v: Vec<usize>)
        requires
            self.first + self.count <= usize::MAX,
        ensures
            v@.len() == self.count,
            forall|k: int| 0 <= k < self.count ==> #[trigger] v@[k] == self.first + k,
    {
        let mut v: Vec<usize> = Vec::new();
        let mut k: usize = 0;
        while k < self.count
            invariant
                self.first + self.count <= usize::MAX,
                k <= self.count,
                v@.len() == k,
                forall|j: int| 0 <= j < k ==> #[trigger] v@[j] == self.first + j,
            decreases self.count - k,
        {
            v.push(self.first + k);
            k = k + 1;
        }
        v
    }
}

/// The choices offered after playing up to (not including) position
/// `index` of `total` episodes.
pub open spec fn menu_options(index: int, total: int) -> Seq<Seq<char>> {
    if index == 1 && index == total {
        seq!["quit"@, "replay"@]
    } else if index == 1 {
        seq!["quit"@, "next"@, "select"@, "replay"@]
    } else if index == total {
        seq!["quit"@, "previous"@, "select"@, "replay"@]
    } else {
        seq!["quit"@, "next"@, "previous"@, "select"@, "replay"@]
    }
}

/// The choice menu text: the choices, one per line.
pub fn choice_menu(index: usize, total: usize) -> (m: &'static str)
    ensures
        m@ == join(menu_options(index as int, total as int), "\n"@),
{
    proof {
        reveal_strlit("quit\nreplay");
        reveal_strlit("quit\nnext\nselect\nreplay");
        reveal_strlit("quit\nprevious\nselect\nreplay");
        reveal_strlit("quit\nnext\nprevious\nselect\nreplay");
        reveal_strlit("quit");
        reveal_strlit("replay");
        reveal_strlit("next");
        reveal_strlit("previous");
        reveal_strlit("select");
        reveal_strlit("\n");
        reveal_with_fuel(join, 6);
    }
    if index == 1 && index == total {
        assert(join(menu_options(index as int, total as int), "\n"@) =~= "quit\nreplay"@);
        "quit\nreplay"
    } else if index == 1 {
        assert(join(menu_options(index as int, total as int), "\n"@) =~= "quit\nnext\nselect\nreplay"@);
        "quit\nnext\nselect\nreplay"
    } else if index == total {
        assert(join(menu_options(index as int, total as int), "\n"@)
            =~= "quit\nprevious\nselect\nreplay"@);
        "quit\nprevious\nselect\nreplay"
    } else {
        assert(join(menu_options(index as int, total as int), "\n"@)
            =~= "quit\nnext\nprevious\nselect\nreplay"@);
        "quit\nnext\nprevious\nselect\nreplay"
    }
}

/// After at least one episode was played, every choice the menu offers
/// either ends the session, asks, or starts at an episode of the list:
/// none of them runs off either end.
pub proof fn lemma_menu_choices_in_range(index: int, total: int)
    requires
        1 <= index <= total,
    ensures
        forall|k: int|
            0 <= k < menu_options(index, total).len() ==> !(start_spec(
                #[trigger] menu_options(index, total)[k],
                total,
                index,
            ) is Stop),
{
    reveal_strlit("quit");
    reveal_strlit("replay");
    reveal_strlit("next");
    reveal_strlit("previous");
    reveal_strlit("select");
    assert("quit"@ != "next"@) by {
        assert("quit"@[0] != "next"@[0]);
    }
    assert("quit"@.len() != "previous"@.len());
    assert("quit"@.len() != "replay"@.len());
    assert("select"@ != "replay"@) by {
        assert("select"@[0] != "replay"@[0]);
    }
    assert("select"@.len() != "next"@.len());
    assert("select"@.len() != "previous"@.len());
    assert("next"@.len() != "previous"@.len());
    assert("next"@.len() != "replay"@.len());
    assert("previous"@.len() != "replay"@.len());
}


// ---------------------------------------------------------------------------
// The session
// ---------------------------------------------------------------------------

/// A session over one show's episodes: the position after the last episode
/// played, and the last choice made (empty before the first pick).
pub struct EpisodeSession {
    pub index: usize,
    pub choice: String,
}

impl EpisodeSession {
    /// A session before anything was played or chosen.
    pub fn new() -> (s: EpisodeSession)
        ensures
            s.index == 0,
            s.choice@ == Seq::<char>::empty(),
    {
        EpisodeSession { index: 0, choice: String::new() }
    }

    /// Whether the user chose to quit.
    pub fn is_over(&self) -> (b: bool)
        ensures
            b == (self.choice@ == "quit"@),
    {
        str_eq(self.choice.as_str(), "quit")
    }

    /// Where the last choice starts playback.
    pub fn start(&self, episodes: &Vec<String>) -> (r: Start)
        ensures
            match start_spec(self.choice@, episodes@.len() as int, self.index as int) {
                StartAt::At(k) => r matches Start::Episode(e) && e@ == episodes@[k]@,
                StartAt::Ask => r is Ask,
                StartAt::Stop(a) => r matches Start::Abort(b) && a == b,
            },
    {
        start_of(self.choice.as_str(), episodes, self.index)
    }

    /// Records that `range` of `total` episodes was played, and gives the
    /// menu of choices that follows.
    pub fn finish_batch(&mut self, range: &Range, total: usize) -> (menu: &'static str)
        requires
            range.first + range.count <= total,
        ensures
            final(self).index == range.first + range.count,
            final(self).choice == old(self).choice,
            menu@ == join(menu_options(final(self).index as int, total as int), "\n"@),
    {
        self.index = range.first + range.count;
        choice_menu(self.index, total)
    }

    /// Records the choice picked from the menu.
    pub fn pick(&mut self, choice: String)
        ensures
            final(self).choice == choice,
            final(self).index == old(self).index,
    {
        self.choice = choice;
    }
}

/// After a pick that plays at least one episode, the session stands within
/// the list, so every choice the next menu offers stays in range.
pub proof fn lemma_batch_keeps_menu_in_range(picked: Seq<char>, eps: Seq<Seq<char>>)
    requires
        range_spec(picked, eps) matches Ok(t) && t.1 >= 1,
    ensures
        ({
            let t = range_spec(picked, eps)->Ok_0;
            let index = t.0 + t.1;
            &&& 1 <= index <= eps.len()
            &&& forall|k: int|
                0 <= k < menu_options(index, eps.len() as int).len() ==> !(start_spec(
                    #[trigger] menu_options(index, eps.len() as int)[k],
                    eps.len() as int,
                    index,
                ) is Stop)
        }),
{
    let ls = lines(picked);
    let f = find_episode(eps, ls[0], 0)->Some_0;
    lemma_find_episode_in(eps, ls[0], 0);
    if ls.last().len() > 0 {
        lemma_find_episode_in(eps, ls.last(), f);
    }
    let t = range_spec(picked, eps)->Ok_0;
    lemma_menu_choices_in_range(t.0 + t.1, eps.len() as int);
}

/// A position `find_episode` gives lies within the list, at or after the
/// start.
pub proof fn lemma_find_episode_in(eps: Seq<Seq<char>>, e: Seq<char>, i: int)
    ensures
        find_episode(eps, e, i) matches Some(j) ==> i <= j < eps.len(),
    decreases eps.len() - i,
{
    if 0 <= i < eps.len() && eps[i] != e {
        lemma_find_episode_in(eps, e, i + 1);
    }
}

} // verus!
