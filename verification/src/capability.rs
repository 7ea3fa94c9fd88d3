//! The controls a camera offers, keyed by control kind.
//!
//! The table is filled once, from the descriptors a camera reports when it is
//! opened, and only read afterwards. A camera that reports the same kind
//! twice is taken at its last word.

use crate::errors::SVBError;
use crate::structs::{ControlCapsView, SVBControlCaps};
use crate::types::{SVBControlType, CONTROL_KINDS};
use vstd::prelude::*;

verus! {

/// The mapping that a series of descriptors describes: each kind maps to
/// the last descriptor reported for it.
pub open spec fn table_of(descriptors: Seq<ControlCapsView>) -> Map<
    SVBControlType,
    ControlCapsView,
>
    decreases descriptors.len(),
{
    if descriptors.len() == 0 {
        Map::empty()
    } else {
        table_of(descriptors.drop_last()).insert(
            descriptors.last().control_type,
            descriptors.last(),
        )
    }
}

/// The error of the first failed query, if any query failed.
pub open spec fn first_failure(replies: Seq<Result<SVBControlCaps, SVBError>>) -> Option<SVBError>
    decreases replies.len(),
{
    if replies.len() == 0 {
        None
    } else {
        match replies.first() {
            Err(e) => Some(e),
            Ok(_) => first_failure(replies.drop_first()),
        }
    }
}

/// The descriptors among the replies, in the order they were reported.
pub open spec fn reported(replies: Seq<Result<SVBControlCaps, SVBError>>) -> Seq<ControlCapsView>
    decreases replies.len(),
{
    if replies.len() == 0 {
        Seq::empty()
    } else {
        match replies.last() {
            Ok(caps) => reported(replies.drop_last()).push(caps@),
            Err(_) => reported(replies.drop_last()),
        }
    }
}

/// Capabilities of one camera, by control kind.
pub struct CapabilityTable {
    slots: Vec<Option<SVBControlCaps>>,
}

impl CapabilityTable {
    #[verifier::type_invariant]
    spec fn well_formed(&self) -> bool {
        &&& self.slots.len() == CONTROL_KINDS
        &&& forall|i: int|
            0 <= i < self.slots.len() ==> (#[trigger] self.slots[i] matches Some(caps)
                ==> caps.control_type.code_spec() == i)
    }

    /// An empty table.
    pub fn new() -> (table: Self)
        ensures
            table@ == Map::<SVBControlType, ControlCapsView>::empty(),
    {
        let mut slots: Vec<Option<SVBControlCaps>> = Vec::new();
        let mut i: usize = 0;
        while i < CONTROL_KINDS
            invariant
                i <= CONTROL_KINDS,
                slots.len() == i,
                forall|j: int| 0 <= j < i ==> slots[j] is None,
            decreases CONTROL_KINDS - i,
        {
            slots.push(None);
            i += 1;
        }
        let table = CapabilityTable { slots };
        table
    }

    /// The table with one more descriptor recorded; it replaces any earlier
    /// one of the same kind.
    pub fn with(self, caps: SVBControlCaps) -> (table: Self)
        ensures
            table@ == self@.insert(caps.control_type, caps@),
    {
        proof {
            use_type_invariant(&self);
        }
        let kind = caps.control_type;
        let index = kind.code() as usize;
        let ghost before = self.slots@;
        let CapabilityTable { mut slots } = self;
        slots.set(index, Some(caps));
        let table = CapabilityTable { slots };
        proof {
            assert forall|k: SVBControlType| k != kind implies table.slots[k.code_spec()]
                == before[k.code_spec()] by {
                crate::types::lemma_control_type_code_round_trip(k, kind);
            }
        }
        table
    }

    /// The table that a series of descriptors describes.
    pub fn from_descriptors(descriptors: &Vec<SVBControlCaps>) -> (table: Self)
        ensures
            table@ == table_of(descriptors@.map_values(|caps: SVBControlCaps| caps@)),
    {
        let ghost views = descriptors@.map_values(|caps: SVBControlCaps| caps@);
        let mut table = CapabilityTable::new();
        let mut i: usize = 0;
        while i < descriptors.len()
            invariant
                i <= descriptors.len(),
                views == descriptors@.map_values(|caps: SVBControlCaps| caps@),
                table@ == table_of(views.take(i as int)),
            decreases descriptors.len() - i,
        {
            let caps = descriptors[i].clone();
            proof {
                assert(views.take(i + 1).drop_last() =~= views.take(i as int));
            }
            table = table.with(caps);
            i += 1;
        }
        proof {
            assert(views.take(i as int) =~= views);
        }
        table
    }

    /// Builds the table from the replies to the descriptor queries, in the
    /// order the queries were made. The first failed query fails the build
    /// with its error; without a failure every descriptor is recorded.
    pub fn build(replies: &Vec<Result<SVBControlCaps, SVBError>>) -> (built: Result<Self, SVBError>)
        ensures
            match first_failure(replies@) {
                Some(e) => built == Err::<Self, SVBError>(e),
                None => built is Ok && built->Ok_0@ == table_of(reported(replies@)),
            },
    {
        let mut table = CapabilityTable::new();
        let mut i: usize = 0;
        while i < replies.len()
            invariant
                i <= replies.len(),
                first_failure(replies@.take(i as int)) is None,
                table@ == table_of(reported(replies@.take(i as int))),
            decreases replies.len() - i,
        {
            proof {
                assert(replies@.take(i + 1).drop_last() =~= replies@.take(i as int));
                lemma_first_failure_push(replies@.take(i as int), replies@[i as int]);
                assert(replies@.take(i + 1) =~= replies@.take(i as int).push(replies@[i as int]));
            }
            match &replies[i] {
                Ok(caps) => {
                    table = table.with(caps.clone());
                    proof {
                        let seen = reported(replies@.take(i as int));
                        assert(seen.push(caps@).drop_last() =~= seen);
                    }
                },
                Err(e) => {
                    proof {
                        lemma_first_failure_prefix(replies@, i + 1);
                    }
                    return Err(*e);
                },
            }
            i += 1;
        }
        proof {
            assert(replies@.take(i as int) =~= replies@);
        }
        Ok(table)
    }

    /// The descriptor recorded for `kind`, if the camera offers that control.
    /// A descriptor that is found is one of that kind.
    pub fn lookup(&self, kind: SVBControlType) -> (found: Option<SVBControlCaps>)
        ensures
            found is Some <==> self@.dom().contains(kind),
            found matches Some(caps) ==> caps@ == self@[kind] && caps.control_type == kind,
    {
        proof {
            use_type_invariant(self);
            if self.slots[kind.code_spec()] is Some {
                let held = self.slots[kind.code_spec()]->Some_0;
                crate::types::lemma_control_type_code_round_trip(held.control_type, kind);
            }
        }
        let index = kind.code() as usize;
        match &self.slots[index] {
            Some(caps) => Some(caps.clone()),
            None => None,
        }
    }

    /// Whether the camera offers the control `kind`.
    pub fn supports(&self, kind: SVBControlType) -> (offered: bool)
        ensures
            offered == self@.dom().contains(kind),
    {
        proof {
            use_type_invariant(self);
        }
        let index = kind.code() as usize;
        self.slots[index].is_some()
    }
}

impl View for CapabilityTable {
    type V = Map<SVBControlType, ControlCapsView>;

    closed spec fn view(&self) -> Map<SVBControlType, ControlCapsView> {
        Map::new(
            |kind: SVBControlType| self.slots[kind.code_spec()] is Some,
            |kind: SVBControlType| self.slots[kind.code_spec()]->Some_0@,
        )
    }
}

/// Appending a reply leaves an earlier failure first; without one, the new
/// reply decides.
pub proof fn lemma_first_failure_push(
    replies: Seq<Result<SVBControlCaps, SVBError>>,
    reply: Result<SVBControlCaps, SVBError>,
)
    ensures
        first_failure(replies.push(reply)) == match first_failure(replies) {
            Some(e) => Some(e),
            None => match reply {
                Err(e) => Some(e),
                Ok(_) => None,
            },
        },
    decreases replies.len(),
{
    if replies.len() == 0 {
        assert(replies.push(reply).drop_first() =~= replies);
    } else {
        assert(replies.push(reply).drop_first() =~= replies.drop_first().push(reply));
        lemma_first_failure_push(replies.drop_first(), reply);
    }
}

/// A failure within the first `n` replies is the first failure of them all.
pub proof fn lemma_first_failure_prefix(replies: Seq<Result<SVBControlCaps, SVBError>>, n: int)
    requires
        0 <= n <= replies.len(),
        first_failure(replies.take(n)) is Some,
    ensures
        first_failure(replies) == first_failure(replies.take(n)),
    decreases replies.len() - n,
{
    if n < replies.len() {
        assert(replies.take(n + 1) =~= replies.take(n).push(replies[n]));
        lemma_first_failure_push(replies.take(n), replies[n]);
        lemma_first_failure_prefix(replies, n + 1);
    } else {
        assert(replies.take(n) =~= replies);
    }
}

/// Every descriptor in the table is filed under its own kind.
pub proof fn lemma_table_entries_of_their_kind(
    descriptors: Seq<ControlCapsView>,
    kind: SVBControlType,
)
    requires
        table_of(descriptors).dom().contains(kind),
    ensures
        table_of(descriptors)[kind].control_type == kind,
    decreases descriptors.len(),
{
    if descriptors.len() > 0 && descriptors.last().control_type != kind {
        lemma_table_entries_of_their_kind(descriptors.drop_last(), kind);
    }
}

/// A kind that no descriptor names is absent from the table.
pub proof fn lemma_table_lacks_unreported(descriptors: Seq<ControlCapsView>, kind: SVBControlType)
    requires
        forall|j: int|
            0 <= j < descriptors.len() ==> (#[trigger] descriptors[j]).control_type != kind,
    ensures
        !table_of(descriptors).dom().contains(kind),
    decreases descriptors.len(),
{
    if descriptors.len() > 0 {
        let front = descriptors.drop_last();
        assert forall|j: int| 0 <= j < front.len() implies (#[trigger] front[j]).control_type
            != kind by {
        }
        lemma_table_lacks_unreported(front, kind);
    }
}

/// Last wins: the table maps a kind to the descriptor at index `i` when that
/// is the last one reported for the kind.
pub proof fn lemma_table_holds_last_of_kind(
    descriptors: Seq<ControlCapsView>,
    kind: SVBControlType,
    i: int,
)
    requires
        0 <= i < descriptors.len(),
        descriptors[i].control_type == kind,
        forall|j: int|
            i < j < descriptors.len() ==> (#[trigger] descriptors[j]).control_type != kind,
    ensures
        table_of(descriptors).dom().contains(kind),
        table_of(descriptors)[kind] == descriptors[i],
    decreases descriptors.len(),
{
    let front = descriptors.drop_last();
    let last = descriptors.len() - 1;
    if i < last {
        assert forall|j: int| i < j < front.len() implies (#[trigger] front[j]).control_type
            != kind by {
        }
        lemma_table_holds_last_of_kind(front, kind, i);
    }
}

} // verus!
