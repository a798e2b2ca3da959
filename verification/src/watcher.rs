//! The watcher of the foreground application.
//!
//! The caller polls the operating system for the name of the process that
//! owns the focused window and hands each answer to the watcher, which
//! decides whether the visual layer is told.

use vstd::prelude::*;
use vstd::string::StrSliceExecFns;
use crate::config::{EXECUTABLE_SUFFIX, POLL_INTERVAL_MS, RESERVED_NAME};

verus! {

/// `text` ends with `suffix`.
pub open spec fn is_suffix_of(suffix: Seq<char>, text: Seq<char>) -> bool {
    suffix.len() <= text.len() && text.skip(text.len() - suffix.len()) == suffix
}

/// The display name of a process: its name without one trailing executable
/// suffix, or the name as it is where it has no such suffix.
pub open spec fn resolved_name(name: Seq<char>) -> Seq<char> {
    if is_suffix_of(EXECUTABLE_SUFFIX@, name) {
        name.take(name.len() - EXECUTABLE_SUFFIX@.len())
    } else {
        name
    }
}

/// Whether `text` ends with `suffix`.
pub fn ends_with(text: &str, suffix: &str) -> (r: bool)
    ensures
        r == is_suffix_of(suffix@, text@),
{
    let n: usize = text.unicode_len();
    let m: usize = suffix.unicode_len();
    if m > n {
        return false;
    }
    let start: usize = n - m;
    let mut i: usize = 0;
    while i < m
        invariant
            n == text@.len(),
            m == suffix@.len(),
            m <= n,
            start == n - m,
            i <= m,
            forall|j: int| 0 <= j < i ==> text@[start + j] == suffix@[j],
        decreases m - i,
    {
        if text.get_char(start + i) != suffix.get_char(i) {
            proof {
                assert(text@.skip(start as int)[i as int] != suffix@[i as int]);
            }
            return false;
        }
        i = i + 1;
    }
    proof {
        assert(text@.skip(start as int) =~= suffix@);
    }
    true
}

/// Removes one trailing executable suffix from `name`, if it has one.
pub fn strip_executable_suffix(name: String) -> (r: String)
    ensures
        r@ == resolved_name(name@),
{
    if ends_with(name.as_str(), EXECUTABLE_SUFFIX) {
        let text: &str = name.as_str();
        let n: usize = text.unicode_len();
        let m: usize = EXECUTABLE_SUFFIX.unicode_len();
        text.substring_char(0, n - m).to_owned()
    } else {
        name
    }
}

/// The text of the two names that the watcher's rules rest on.
pub proof fn lemma_fixed_names()
    ensures
        EXECUTABLE_SUFFIX@ == seq!['.', 'e', 'x', 'e'],
        RESERVED_NAME@ == seq!['q', 'u', 'a', 'c', 'k'],
{
    reveal_strlit(".exe");
    reveal_strlit("quack");
    assert(EXECUTABLE_SUFFIX@ =~= seq!['.', 'e', 'x', 'e']);
    assert(RESERVED_NAME@ =~= seq!['q', 'u', 'a', 'c', 'k']);
}

/// Whether a display name is reported when `last` was the one reported
/// before it: it must not be empty, must differ from `last`, and must not be
/// the widget's own.
pub open spec fn is_news(last: Seq<char>, name: Seq<char>) -> bool {
    name.len() > 0 && name != last && name != RESERVED_NAME@
}

/// One poll. `probe` is the raw name of the foreground process, or `None`
/// where the platform gave none. The result is the name remembered after
/// the poll and the name to report, if any.
pub open spec fn watch_step(last: Seq<char>, probe: Option<Seq<char>>) -> (
    Seq<char>,
    Option<Seq<char>>,
) {
    match probe {
        None => (last, None),
        Some(raw) => {
            let name = resolved_name(raw);
            if is_news(last, name) {
                (name, Some(name))
            } else {
                (last, None)
            }
        },
    }
}

/// The text of a name that may be absent.
pub open spec fn text_of(name: Option<String>) -> Option<Seq<char>> {
    match name {
        None => None,
        Some(s) => Some(s@),
    }
}

/// What the watcher asks of the caller after one poll.
#[derive(Clone, Debug, PartialEq, Eq)]
pub struct WatchAction {
    /// The display name to send to the visual layer as
    /// `Signal::ActiveWindowChanged`, where there is news.
    pub report: Option<String>,
    /// Milliseconds to sleep before the next poll.
    pub sleep_ms: u64,
}

/// Remembers the last display name that was reported, for the lifetime of
/// one watch loop.
pub struct ActiveWindowWatcher {
    last: String,
}

impl View for ActiveWindowWatcher {
    type V = Seq<char>;

    /// The last display name that was reported; empty before the first.
    closed spec fn view(&self) -> Seq<char> {
        self.last@
    }
}

impl ActiveWindowWatcher {
    /// A watcher that has reported nothing yet.
    pub fn new() -> (r: Self)
        ensures
            r@ == Seq::<char>::empty(),
    {
        ActiveWindowWatcher { last: String::new() }
    }

    /// Takes the answer of one poll: the raw name of the foreground
    /// process, or `None` where the platform gave none. Returns the display
    /// name to report, if there is news, and how long to sleep before the
    /// next poll.
    pub fn observe(&mut self, probe: Option<String>) -> (action: WatchAction)
        ensures
            (final(self)@, text_of(action.report)) == watch_step(old(self)@, text_of(probe)),
            action.sleep_ms == POLL_INTERVAL_MS,
    {
        let report: Option<String> = match probe {
            None => None,
            Some(raw) => {
                let name: String = strip_executable_suffix(raw);
                let reserved: String = RESERVED_NAME.to_owned();
                if !name.as_str().is_empty() && name != self.last && name != reserved {
                    self.last = name.clone();
                    Some(name)
                } else {
                    None
                }
            },
        };
        WatchAction { report, sleep_ms: POLL_INTERVAL_MS }
    }
}

/// The names reported over a run of polls, in their order, starting from a
/// watcher that remembers `last`.
pub open spec fn reports(last: Seq<char>, probes: Seq<Option<Seq<char>>>) -> Seq<Seq<char>>
    decreases probes.len(),
{
    if probes.len() == 0 {
        Seq::empty()
    } else {
        let earlier = probes.drop_last();
        match watch_step(remembered(last, earlier), probes.last()).1 {
            None => reports(last, earlier),
            Some(name) => reports(last, earlier).push(name),
        }
    }
}

/// The name that the watcher remembers after a run of polls.
pub open spec fn remembered(last: Seq<char>, probes: Seq<Option<Seq<char>>>) -> Seq<char>
    decreases probes.len(),
{
    if probes.len() == 0 {
        last
    } else {
        watch_step(remembered(last, probes.drop_last()), probes.last()).0
    }
}

/// A name is reported exactly when it is news: a resolved name that is not
/// empty, differs from the one remembered and is not the widget's own is
/// reported and remembered; any other poll reports nothing and leaves the
/// remembered name as it was.
pub proof fn lemma_reports_exactly_the_news(last: Seq<char>, raw: Seq<char>)
    ensures
        is_news(last, resolved_name(raw)) ==> watch_step(last, Some(raw)) == (
            resolved_name(raw),
            Some(resolved_name(raw)),
        ),
        !is_news(last, resolved_name(raw)) ==> watch_step(last, Some(raw)) == (
            last,
            None::<Seq<char>>,
        ),
        watch_step(last, None) == (last, None::<Seq<char>>),
{
}

/// The same name is never reported twice in a row: a second poll with the
/// same raw name reports nothing, whatever the first one did.
pub proof fn lemma_same_name_is_not_repeated(last: Seq<char>, raw: Seq<char>)
    ensures
        watch_step(watch_step(last, Some(raw)).0, Some(raw)).1 is None,
{
}

/// Over any run of polls: the watcher remembers the last name that it
/// reported, no report is empty or the widget's own name, and no report
/// repeats the one before it, nor the first the name remembered at the
/// start.
pub proof fn lemma_reports_never_repeat(last: Seq<char>, probes: Seq<Option<Seq<char>>>)
    ensures
        ({
            let out = reports(last, probes);
            &&& remembered(last, probes) == if out.len() == 0 {
                last
            } else {
                out.last()
            }
            &&& forall|i: int|
                0 <= i < out.len() ==> (#[trigger] out[i]).len() > 0 && out[i] != RESERVED_NAME@
            &&& forall|i: int| 0 < i < out.len() ==> #[trigger] out[i] != out[i - 1]
            &&& out.len() > 0 ==> out[0] != last
        }),
    decreases probes.len(),
{
    if probes.len() > 0 {
        lemma_reports_never_repeat(last, probes.drop_last());
    }
}

/// A trailing executable suffix is removed before a name is weighed and
/// reported, once and only once; a name without it passes unchanged.
pub proof fn lemma_suffix_is_stripped(name: Seq<char>)
    ensures
        is_suffix_of(EXECUTABLE_SUFFIX@, name) ==> resolved_name(name) + EXECUTABLE_SUFFIX@
            == name,
        !is_suffix_of(EXECUTABLE_SUFFIX@, name) ==> resolved_name(name) == name,
        forall|last: Seq<char>|
            (#[trigger] watch_step(last, Some(name))).1 matches Some(told) ==> told
                == resolved_name(name),
{
    if is_suffix_of(EXECUTABLE_SUFFIX@, name) {
        let cut = name.len() - EXECUTABLE_SUFFIX@.len();
        assert(name.take(cut) + name.skip(cut) =~= name);
    }
}

} // verus!
