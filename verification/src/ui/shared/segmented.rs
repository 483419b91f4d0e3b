//! A segmented control: one of several segments is selected, and a pill
//! slides from the previously selected segment to the selected one.

use vstd::prelude::*;

use crate::text::owned;

verus! {

/// One segment.
#[derive(Debug)]
pub struct Segment {
    pub id: String,
    pub label: String,
}

impl Segment {
    pub fn new(id: String, label: String) -> (s: Self)
        ensures
            s == (Segment { id, label }),
    {
        Segment { id, label }
    }
}

/// The control as configured.
pub struct SegmentedControl<H> {
    pub id: String,
    pub segments: Vec<Segment>,
    pub selected: String,
    pub previous_selected: Option<String>,
    pub on_change: Option<H>,
}

/// The index of the first segment with id `id`.
pub open spec fn first_index(segments: Seq<Segment>, id: Seq<char>, i: int) -> bool {
    0 <= i < segments.len() && segments[i].id@ == id && forall|j: int|
        0 <= j < i ==> (#[trigger] segments[j]).id@ != id
}

/// Where the pill stands: the first segment with the id, else the first.
pub open spec fn position_or(segments: Seq<Segment>, id: Seq<char>, default: int) -> int {
    if exists|i: int| first_index(segments, id, i) {
        choose|i: int| first_index(segments, id, i)
    } else {
        default
    }
}

fn position(segments: &Vec<Segment>, id: &str) -> (r: Option<usize>)
    ensures
        match r {
            Some(i) => first_index(segments@, id@, i as int),
            None => forall|j: int| 0 <= j < segments@.len() ==> (#[trigger] segments@[j]).id@ != id@,
        },
{
    let target = owned(id);
    let mut i: usize = 0;
    while i < segments.len()
        invariant
            i <= segments.len(),
            target@ == id@,
            forall|j: int| 0 <= j < i ==> (#[trigger] segments@[j]).id@ != id@,
        decreases segments.len() - i,
    {
        if segments[i].id == target {
            return Some(i);
        }
        i = i + 1;
    }
    None
}

proof fn lemma_first_index_unique(segments: Seq<Segment>, id: Seq<char>, i: int, k: int)
    requires
        first_index(segments, id, i),
        first_index(segments, id, k),
    ensures
        i == k,
{
    if i < k {
        assert(segments[i].id@ != id);
    } else if k < i {
        assert(segments[k].id@ != id);
    }
}

impl<H> SegmentedControl<H> {
    /// A control without segments; nothing selected yet.
    pub fn new(id: String) -> (c: Self)
        ensures
            c.id == id,
            c.segments@.len() == 0,
            c.selected@ == Seq::<char>::empty(),
            c.previous_selected is None,
            c.on_change is None,
    {
        SegmentedControl { id, segments: Vec::new(), selected: String::new(), previous_selected: None, on_change: None }
    }

    /// Sets the segments; when nothing is selected yet, the first one is.
    pub fn segments(self, segments: Vec<Segment>) -> (c: Self)
        ensures
            c.id == self.id,
            c.segments == segments,
            c.previous_selected == self.previous_selected,
            c.on_change == self.on_change,
            self.selected@.len() == 0 && segments@.len() > 0 ==> c.selected@ == segments@[0].id@,
            !(self.selected@.len() == 0 && segments@.len() > 0) ==> c.selected == self.selected,
    {
        let selected = if self.selected.as_str().is_empty() && segments.len() > 0 {
            segments[0].id.clone()
        } else {
            self.selected
        };
        SegmentedControl { segments, selected, ..self }
    }

    pub fn selected(self, id: String) -> (c: Self)
        ensures
            c == (SegmentedControl { selected: id, ..self }),
    {
        SegmentedControl { selected: id, ..self }
    }

    /// The segment selected before, where the pill slides from.
    pub fn previous_selected(self, id: String) -> (c: Self)
        ensures
            c == (SegmentedControl { previous_selected: Some(id), ..self }),
    {
        SegmentedControl { previous_selected: Some(id), ..self }
    }

    pub fn on_change(self, handler: H) -> (c: Self)
        ensures
            c == (SegmentedControl { on_change: Some(handler), ..self }),
    {
        SegmentedControl { on_change: Some(handler), ..self }
    }

    /// Where the pill slides from and to: to the selected segment (the first
    /// one when the id is unknown), from the previously selected one (from
    /// where it goes to when there is none or its id is unknown). It slides
    /// only when the two differ.
    pub fn indicator_move(&self) -> (r: (usize, usize))
        ensures
            r.1 as int == position_or(self.segments@, self.selected@, 0),
            r.0 as int == match self.previous_selected {
                Some(p) => position_or(self.segments@, p@, r.1 as int),
                None => r.1 as int,
            },
    {
        let to = match position(&self.segments, self.selected.as_str()) {
            Some(i) => {
                proof {
                    let c = choose|c: int| first_index(self.segments@, self.selected@, c);
                    lemma_first_index_unique(self.segments@, self.selected@, i as int, c);
                }
                i
            },
            None => 0,
        };
        let from = match &self.previous_selected {
            Some(p) => match position(&self.segments, p.as_str()) {
                Some(i) => {
                    proof {
                        let c = choose|c: int| first_index(self.segments@, p@, c);
                        lemma_first_index_unique(self.segments@, p@, i as int, c);
                    }
                    i
                },
                None => to,
            },
            None => to,
        };
        (from, to)
    }
}

} // verus!
