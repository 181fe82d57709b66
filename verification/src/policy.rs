use vstd::prelude::*;
use crate::text::{contains, contains_text};

verus! {

/// The literal texts whose appearance in generated text ends a turn, and the
/// number of trailing characters of the accumulated text that are searched
/// for them. The window is never shorter than a marker: a shorter one could
/// not hold it.
pub struct StopMarkers {
    markers: Vec<String>,
    window: usize,
}

/// What a `StopMarkers` value stands for in contracts.
pub struct MarkerSet {
    pub markers: Seq<Seq<char>>,
    pub window: nat,
}

/// Whether for an engine to go on generating or to stop.
#[derive(Clone, Copy, Debug, PartialEq, Eq, Structural)]
pub enum Decision {
    Continue,
    Halt,
}

impl View for StopMarkers {
    type V = MarkerSet;

    closed spec fn view(&self) -> MarkerSet {
        MarkerSet { markers: self.markers.deep_view(), window: self.window as nat }
    }
}

/// The length of the longest of `markers`, in characters.
pub open spec fn longest(markers: Seq<Seq<char>>) -> nat
    decreases markers.len(),
{
    if markers.len() == 0 {
        0
    } else if markers.last().len() > longest(markers.drop_last()) {
        markers.last().len()
    } else {
        longest(markers.drop_last())
    }
}

/// No marker is longer than the longest.
pub proof fn lemma_longest_bounds(markers: Seq<Seq<char>>, k: int)
    requires
        0 <= k < markers.len(),
    ensures
        markers[k].len() <= longest(markers),
    decreases markers.len(),
{
    if k < markers.len() - 1 {
        lemma_longest_bounds(markers.drop_last(), k);
    }
}

/// What bounds every marker bounds the longest.
pub proof fn lemma_longest_within(markers: Seq<Seq<char>>, bound: nat)
    requires
        forall|k: int| 0 <= k < markers.len() ==> (#[trigger] markers[k]).len() <= bound,
    ensures
        longest(markers) <= bound,
    decreases markers.len(),
{
    if markers.len() > 0 {
        let rest = markers.drop_last();
        assert forall|k: int| 0 <= k < rest.len() implies (#[trigger] rest[k]).len() <= bound by {
            assert(rest[k] == markers[k]);
        }
        lemma_longest_within(rest, bound);
    }
}

impl MarkerSet {
    /// The window can hold each of the markers.
    pub open spec fn holds_markers(self) -> bool {
        forall|k: int| 0 <= k < self.markers.len() ==> (#[trigger] self.markers[k]).len() <= self.window
    }
}

/// Some marker of `markers` is a substring of `text`.
pub open spec fn marker_in(markers: Seq<Seq<char>>, text: Seq<char>) -> bool {
    exists|k: int| 0 <= k < markers.len() && contains(text, #[trigger] markers[k])
}

/// Generation goes on exactly when no marker stands in the fragment and none
/// in the trailing window.
pub open spec fn keeps_going(markers: Seq<Seq<char>>, fragment: Seq<char>, tail: Seq<char>) -> bool {
    !marker_in(markers, fragment) && !marker_in(markers, tail)
}

impl StopMarkers {
    #[verifier::type_invariant]
    spec fn window_holds_markers(&self) -> bool {
        self@.holds_markers()
    }

    /// A policy that stops on any of `markers` and looks for them in the last
    /// `window` characters of the text accumulated so far, or in as many as
    /// the longest marker has, where that is more.
    pub fn new(markers: Vec<String>, window: usize) -> (policy: StopMarkers)
        ensures
            policy@.markers == markers.deep_view(),
            policy@.window == if window >= longest(markers.deep_view()) {
                window as nat
            } else {
                longest(markers.deep_view())
            },
            policy@.holds_markers(),
    {
        let mut widest: usize = window;
        let mut k: usize = 0;
        while k < markers.len()
            invariant
                k <= markers.len(),
                widest == if window >= longest(markers.deep_view().take(k as int)) {
                    window as nat
                } else {
                    longest(markers.deep_view().take(k as int))
                },
            decreases markers.len() - k,
        {
            let length = markers[k].as_str().unicode_len();
            proof {
                let seen = markers.deep_view().take(k + 1);
                assert(seen.drop_last() =~= markers.deep_view().take(k as int));
                assert(seen.last() == markers@[k as int]@);
            }
            if length > widest {
                widest = length;
            }
            k += 1;
        }
        proof {
            assert(markers.deep_view().take(k as int) =~= markers.deep_view());
            assert forall|j: int| 0 <= j < markers.deep_view().len() implies (
            #[trigger] markers.deep_view()[j]).len() <= widest by {
                lemma_longest_bounds(markers.deep_view(), j);
            }
        }
        StopMarkers { markers, window: widest }
    }

    /// The markers.
    pub fn markers(&self) -> (markers: &Vec<String>)
        ensures
            markers.deep_view() == self@.markers,
    {
        &self.markers
    }

    /// The number of trailing characters that are searched; at least the
    /// length of the longest marker.
    pub fn window(&self) -> (window: usize)
        ensures
            window == self@.window,
            self@.holds_markers(),
    {
        proof {
            use_type_invariant(self);
        }
        self.window
    }

    /// The per-fragment decision: `false` (halt) as soon as the fragment, or
    /// the trailing window handed in, holds one of the markers; `true` for
    /// every other fragment, the empty one included.
    pub fn should_continue(&self, fragment: &str, running_tail: &str) -> (go: bool)
        ensures
            go == keeps_going(self@.markers, fragment@, running_tail@),
    {
        let mut k: usize = 0;
        while k < self.markers.len()
            invariant
                k <= self.markers.len(),
                forall|j: int|
                    0 <= j < k ==> !contains(fragment@, #[trigger] self@.markers[j]) && !contains(
                        running_tail@,
                        self@.markers[j],
                    ),
            decreases self.markers.len() - k,
        {
            let marker = self.markers[k].as_str();
            assert(marker@ == self@.markers[k as int]);
            if contains_text(fragment, marker) || contains_text(running_tail, marker) {
                return false;
            }
            k += 1;
        }
        true
    }
}

} // verus!
