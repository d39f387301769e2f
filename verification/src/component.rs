//! Filtering a message's interactive components down to the reproducible
//! subset.
//!
//! A leaf element is reproducible ("valid") iff it is a plain navigational
//! button carrying no bot-owned callback identifier: such link-style buttons
//! only encode a URL and need no bot-side interaction handling. A container
//! row is kept iff it still has at least one valid leaf after filtering;
//! rows left empty are dropped entirely, never kept as empty shells.

use vstd::prelude::*;

use crate::error::Error;
use crate::MessageSource;

verus! {

/// A leaf interactive element attached to a message.
#[derive(Debug, Clone, Copy, PartialEq, Eq, Structural)]
pub enum Leaf {
    /// A plain navigational button with no callback identifier; it only
    /// encodes a URL, so it can be reproduced.
    LinkButton,
    /// A button carrying a bot-owned callback identifier; it cannot be
    /// reproduced.
    CustomButton,
    /// Any other interactive element (select menu, text input, ...); it
    /// cannot be reproduced.
    Other,
}

/// A top-level component: a container row of leaves, or a bare leaf.
#[derive(Debug, Clone, PartialEq, Eq)]
pub enum Component {
    /// A container row grouping leaf elements.
    ActionRow(Vec<Leaf>),
    /// A bare leaf standing at the top level.
    Leaf(Leaf),
}

/// The mathematical shape of a component: rows seen as sequences.
pub enum ComponentModel {
    /// A container row.
    Row(Seq<Leaf>),
    /// A bare leaf.
    Leaf(Leaf),
}

impl Component {
    /// The component as its mathematical shape.
    pub open spec fn model(self) -> ComponentModel {
        match self {
            Component::ActionRow(leaves) => ComponentModel::Row(leaves@),
            Component::Leaf(leaf) => ComponentModel::Leaf(leaf),
        }
    }
}

/// A component sequence as its mathematical shape.
pub open spec fn models(s: Seq<Component>) -> Seq<ComponentModel> {
    s.map_values(|c: Component| c.model())
}

/// A leaf is reproducible iff it is a link-style button.
pub open spec fn spec_leaf_valid(leaf: Leaf) -> bool {
    leaf is LinkButton
}

/// The reproducible leaves of a row, in order.
pub open spec fn filter_row(s: Seq<Leaf>) -> Seq<Leaf>
    decreases s.len(),
{
    if s.len() == 0 {
        Seq::empty()
    } else {
        let rest = filter_row(s.drop_last());
        if spec_leaf_valid(s.last()) {
            rest.push(s.last())
        } else {
            rest
        }
    }
}

/// The reproducible subset of a component sequence: each row keeps its
/// valid leaves, rows left empty are dropped, bare leaves are kept iff
/// valid, and order is preserved within and across rows.
pub open spec fn filter_components(s: Seq<ComponentModel>) -> Seq<ComponentModel>
    decreases s.len(),
{
    if s.len() == 0 {
        Seq::empty()
    } else {
        let rest = filter_components(s.drop_last());
        match s.last() {
            ComponentModel::Row(leaves) => {
                let kept = filter_row(leaves);
                if kept.len() == 0 {
                    rest
                } else {
                    rest.push(ComponentModel::Row(kept))
                }
            },
            ComponentModel::Leaf(leaf) => {
                if spec_leaf_valid(leaf) {
                    rest.push(ComponentModel::Leaf(leaf))
                } else {
                    rest
                }
            },
        }
    }
}

/// A row survives filtering unchanged iff it is nonempty and every leaf in
/// it is valid.
pub open spec fn spec_row_reproducible(leaves: Seq<Leaf>) -> bool {
    leaves.len() > 0 && (forall|j: int| 0 <= j < leaves.len() ==> spec_leaf_valid(leaves[j]))
}

/// A component sequence survives filtering unchanged iff every row in it
/// is reproducible and every bare leaf is valid.
pub open spec fn spec_components_reproducible(s: Seq<ComponentModel>) -> bool {
    forall|i: int|
        0 <= i < s.len() ==> match #[trigger] s[i] {
            ComponentModel::Row(leaves) => spec_row_reproducible(leaves),
            ComponentModel::Leaf(leaf) => spec_leaf_valid(leaf),
        }
}

pub proof fn lemma_filter_row_len(s: Seq<Leaf>)
    ensures
        filter_row(s).len() <= s.len(),
    decreases s.len(),
{
    if s.len() > 0 {
        lemma_filter_row_len(s.drop_last());
    }
}

/// Every leaf that survives row filtering is valid.
pub proof fn lemma_filter_row_all_valid(s: Seq<Leaf>)
    ensures
        forall|j: int| 0 <= j < filter_row(s).len() ==> spec_leaf_valid(#[trigger] filter_row(s)[j]),
    decreases s.len(),
{
    if s.len() > 0 {
        lemma_filter_row_all_valid(s.drop_last());
        let rest = filter_row(s.drop_last());
        assert forall|j: int|
            0 <= j < filter_row(s).len() implies spec_leaf_valid(#[trigger] filter_row(s)[j]) by {
            if spec_leaf_valid(s.last()) {
                assert(filter_row(s) == rest.push(s.last()));
                if j < rest.len() {
                    assert(filter_row(s)[j] == rest[j]);
                }
            } else {
                assert(filter_row(s) == rest);
            }
        }
    }
}

/// A row passes through filtering unchanged iff every leaf in it is valid.
pub proof fn lemma_filter_row_unchanged_iff(s: Seq<Leaf>)
    ensures
        (filter_row(s) == s) <==> (forall|j: int| 0 <= j < s.len() ==> spec_leaf_valid(s[j])),
    decreases s.len(),
{
    if s.len() == 0 {
        assert(filter_row(s) =~= s);
    } else {
        lemma_filter_row_unchanged_iff(s.drop_last());
        lemma_filter_row_len(s.drop_last());
        if forall|j: int| 0 <= j < s.len() ==> spec_leaf_valid(s[j]) {
            assert(forall|j: int|
                0 <= j < s.drop_last().len() ==> spec_leaf_valid(s.drop_last()[j]));
            assert(spec_leaf_valid(s.last()));
            assert(filter_row(s) =~= s);
        }
        if filter_row(s) == s {
            if !spec_leaf_valid(s.last()) {
                assert(filter_row(s).len() < s.len());
                assert(false);
            }
            let fd = filter_row(s.drop_last());
            assert(fd.push(s.last()) == s);
            assert(fd =~= s.drop_last()) by {
                assert(fd.len() == s.drop_last().len());
                assert forall|j: int| 0 <= j < fd.len() implies fd[j] == s.drop_last()[j] by {
                    assert(fd.push(s.last())[j] == fd[j]);
                }
            }
            assert forall|j: int| 0 <= j < s.len() implies spec_leaf_valid(s[j]) by {
                if j < s.len() - 1 {
                    assert(s[j] == s.drop_last()[j]);
                } else {
                    assert(s[j] == s.last());
                }
            }
        }
    }
}

/// Every component that survives filtering is itself reproducible: each
/// surviving row is nonempty and holds only valid leaves, and each
/// surviving bare leaf is valid. In particular a container whose every
/// leaf is invalid is entirely absent from the filtered output, not
/// present as an empty shell.
pub proof fn lemma_filter_components_reproducible(s: Seq<ComponentModel>)
    ensures
        spec_components_reproducible(filter_components(s)),
    decreases s.len(),
{
    if s.len() > 0 {
        lemma_filter_components_reproducible(s.drop_last());
        let rest = filter_components(s.drop_last());
        match s.last() {
            ComponentModel::Row(leaves) => {
                lemma_filter_row_all_valid(leaves);
            },
            ComponentModel::Leaf(_) => {},
        }
        assert forall|i: int|
            0 <= i < filter_components(s).len() implies match #[trigger] filter_components(s)[i] {
            ComponentModel::Row(leaves) => spec_row_reproducible(leaves),
            ComponentModel::Leaf(leaf) => spec_leaf_valid(leaf),
        } by {
            if i < rest.len() {
                assert(filter_components(s)[i] == rest[i]);
            }
        }
    }
}

pub proof fn lemma_filter_components_len(s: Seq<ComponentModel>)
    ensures
        filter_components(s).len() <= s.len(),
    decreases s.len(),
{
    if s.len() > 0 {
        lemma_filter_components_len(s.drop_last());
    }
}

/// Filtering leaves a component sequence unchanged iff every component in
/// it is reproducible. The `has_invalid_components` flag, computed as the
/// negation of the right-hand side, is therefore true iff the filtered
/// sequence differs structurally from the original.
pub proof fn lemma_filter_components_unchanged_iff(s: Seq<ComponentModel>)
    ensures
        (filter_components(s) == s) <==> spec_components_reproducible(s),
    decreases s.len(),
{
    if s.len() == 0 {
        assert(filter_components(s) =~= s);
    } else {
        lemma_filter_components_unchanged_iff(s.drop_last());
        lemma_filter_components_len(s.drop_last());
        if spec_components_reproducible(s) {
            assert(spec_components_reproducible(s.drop_last())) by {
                assert forall|i: int|
                    0 <= i < s.drop_last().len() implies match #[trigger] s.drop_last()[i] {
                    ComponentModel::Row(leaves) => spec_row_reproducible(leaves),
                    ComponentModel::Leaf(leaf) => spec_leaf_valid(leaf),
                } by {
                    assert(s.drop_last()[i] == s[i]);
                }
            }
            match s.last() {
                ComponentModel::Row(leaves) => {
                    lemma_filter_row_unchanged_iff(leaves);
                    assert(filter_row(leaves) == leaves);
                    assert(filter_components(s) =~= s);
                },
                ComponentModel::Leaf(leaf) => {
                    assert(filter_components(s) =~= s);
                },
            }
        }
        if filter_components(s) == s {
            let rest = filter_components(s.drop_last());
            match s.last() {
                ComponentModel::Row(leaves) => {
                    lemma_filter_row_len(leaves);
                    let kept = filter_row(leaves);
                    if kept.len() == 0 {
                        assert(filter_components(s).len() < s.len());
                        assert(false);
                    }
                    assert(rest.push(ComponentModel::Row(kept)) == s);
                    assert(rest =~= s.drop_last()) by {
                        assert(rest.len() == s.drop_last().len());
                        assert forall|j: int| 0 <= j < rest.len() implies rest[j] == s.drop_last()[j] by {
                            assert(rest.push(ComponentModel::Row(kept))[j] == rest[j]);
                        }
                    }
                    assert(s.last() == ComponentModel::Row(kept));
                    assert(kept == leaves);
                    lemma_filter_row_unchanged_iff(leaves);
                    assert(spec_row_reproducible(leaves));
                    assert forall|i: int|
                        0 <= i < s.len() implies match #[trigger] s[i] {
                        ComponentModel::Row(ls) => spec_row_reproducible(ls),
                        ComponentModel::Leaf(leaf) => spec_leaf_valid(leaf),
                    } by {
                        if i < s.len() - 1 {
                            assert(s[i] == s.drop_last()[i]);
                        } else {
                            assert(s[i] == s.last());
                        }
                    }
                },
                ComponentModel::Leaf(leaf) => {
                    if !spec_leaf_valid(leaf) {
                        assert(filter_components(s).len() < s.len());
                        assert(false);
                    }
                    assert(rest.push(ComponentModel::Leaf(leaf)) == s);
                    assert(rest =~= s.drop_last()) by {
                        assert(rest.len() == s.drop_last().len());
                        assert forall|j: int| 0 <= j < rest.len() implies rest[j] == s.drop_last()[j] by {
                            assert(rest.push(ComponentModel::Leaf(leaf))[j] == rest[j]);
                        }
                    }
                    assert forall|i: int|
                        0 <= i < s.len() implies match #[trigger] s[i] {
                        ComponentModel::Row(ls) => spec_row_reproducible(ls),
                        ComponentModel::Leaf(lf) => spec_leaf_valid(lf),
                    } by {
                        if i < s.len() - 1 {
                            assert(s[i] == s.drop_last()[i]);
                        } else {
                            assert(s[i] == s.last());
                        }
                    }
                },
            }
        }
    }
}

/// Filtering is idempotent: filtering an already-filtered component
/// sequence yields the same sequence, with nothing further dropped.
pub proof fn lemma_filter_components_idempotent(s: Seq<ComponentModel>)
    ensures
        filter_components(filter_components(s)) == filter_components(s),
{
    lemma_filter_components_reproducible(s);
    lemma_filter_components_unchanged_iff(filter_components(s));
}

/// A container whose every leaf is invalid does not appear in any filtered
/// output, in any form.
pub proof fn lemma_filter_drops_fully_invalid_row(s: Seq<ComponentModel>, leaves: Seq<Leaf>)
    requires
        forall|j: int| 0 <= j < leaves.len() ==> !spec_leaf_valid(leaves[j]),
    ensures
        !filter_components(s).contains(ComponentModel::Row(leaves)),
{
    lemma_filter_components_reproducible(s);
    if filter_components(s).contains(ComponentModel::Row(leaves)) {
        let i = choose|i: int|
            0 <= i < filter_components(s).len() && filter_components(s)[i] == ComponentModel::Row(
                leaves,
            );
        assert(spec_row_reproducible(leaves));
        assert(spec_leaf_valid(leaves[0]));
        assert(false);
    }
}

/// Info about a message's components, derived at construction time.
#[derive(Debug, Clone, PartialEq, Eq)]
pub struct Info {
    /// The reproducible components of the message, in their original order.
    pub url_components: Vec<Component>,
    /// Whether the message had components that cannot be reproduced, that
    /// is whether the filtered sequence differs structurally from the
    /// original.
    pub has_invalid_components: bool,
}

impl MessageSource {
    /// Opt-in guard: check that the message has no components that cannot
    /// be reproduced.
    ///
    /// Link-style buttons can be reproduced, so they are allowed. The
    /// guard is separate from construction so that a caller may choose to
    /// clone anyway, accepting silent component loss.
    ///
    /// # Errors
    ///
    /// Returns [`Error::SourceComponent`] iff the message had a component
    /// that cannot be reproduced.
    pub fn check_component(self) -> (r: Result<MessageSource, Error>)
        ensures
            (r is Err) <==> self.component_info.has_invalid_components,
            r matches Err(e) ==> e == Error::SourceComponent,
            r matches Ok(s) ==> s == self,
    {
        if self.component_info.has_invalid_components {
            Err(Error::SourceComponent)
        } else {
            Ok(self)
        }
    }
}

/// Whether a leaf is reproducible: a button with no callback identifier.
pub fn is_valid(leaf: &Leaf) -> (r: bool)
    ensures
        r == spec_leaf_valid(*leaf),
{
    matches!(leaf, Leaf::LinkButton)
}

fn filter_row_exec(leaves: &Vec<Leaf>) -> (r: Vec<Leaf>)
    ensures
        r@ == filter_row(leaves@),
{
    let mut r: Vec<Leaf> = Vec::new();
    let mut i: usize = 0;
    while i < leaves.len()
        invariant
            i <= leaves@.len(),
            r@ == filter_row(leaves@.take(i as int)),
        decreases leaves@.len() - i,
    {
        proof {
            assert(leaves@.take(i + 1).drop_last() =~= leaves@.take(i as int));
            assert(leaves@.take(i + 1).last() == leaves@[i as int]);
        }
        if is_valid(&leaves[i]) {
            r.push(leaves[i]);
        }
        i += 1;
    }
    proof {
        assert(leaves@.take(leaves@.len() as int) =~= leaves@);
    }
    r
}

/// Keep only the reproducible subset of the given components, preserving
/// container grouping and order; rows left empty are dropped entirely.
pub fn filter_valid(components: &Vec<Component>) -> (r: Vec<Component>)
    ensures
        models(r@) == filter_components(models(components@)),
{
    let mut r: Vec<Component> = Vec::new();
    let mut i: usize = 0;
    while i < components.len()
        invariant
            i <= components@.len(),
            models(r@) == filter_components(models(components@).take(i as int)),
        decreases components@.len() - i,
    {
        proof {
            assert(models(components@).take(i + 1).drop_last() =~= models(
                components@,
            ).take(i as int));
            assert(models(components@).take(i + 1).last() == components@[i as int].model());
        }
        let ghost prev = models(r@);
        match &components[i] {
            Component::ActionRow(leaves) => {
                let kept = filter_row_exec(leaves);
                if kept.len() > 0 {
                    proof {
                        assert(models(r@.push(Component::ActionRow(kept))) =~= prev.push(
                            ComponentModel::Row(kept@),
                        ));
                    }
                    r.push(Component::ActionRow(kept));
                }
            },
            Component::Leaf(leaf) => {
                if is_valid(leaf) {
                    proof {
                        assert(models(r@.push(Component::Leaf(*leaf))) =~= prev.push(
                            ComponentModel::Leaf(*leaf),
                        ));
                    }
                    r.push(Component::Leaf(*leaf));
                }
            },
        }
        i += 1;
    }
    proof {
        assert(models(components@).take(models(components@).len() as int) =~= models(
            components@,
        ));
    }
    r
}

/// Whether every component of the sequence is reproducible as it stands,
/// that is whether filtering would leave the sequence unchanged.
pub fn components_reproducible(components: &Vec<Component>) -> (r: bool)
    ensures
        r == spec_components_reproducible(models(components@)),
{
    let mut i: usize = 0;
    while i < components.len()
        invariant
            i <= components@.len(),
            forall|k: int|
                0 <= k < i ==> match #[trigger] models(components@)[k] {
                    ComponentModel::Row(leaves) => spec_row_reproducible(leaves),
                    ComponentModel::Leaf(leaf) => spec_leaf_valid(leaf),
                },
        decreases components@.len() - i,
    {
        match &components[i] {
            Component::ActionRow(leaves) => {
                if leaves.len() == 0 {
                    proof {
                        assert(models(components@)[i as int] == ComponentModel::Row(leaves@));
                        assert(!spec_row_reproducible(leaves@));
                    }
                    return false;
                }
                let mut j: usize = 0;
                while j < leaves.len()
                    invariant
                        j <= leaves@.len(),
                        i < components@.len(),
                        components@[i as int] == Component::ActionRow(*leaves),
                        forall|l: int| 0 <= l < j ==> spec_leaf_valid(leaves@[l]),
                    decreases leaves@.len() - j,
                {
                    if !is_valid(&leaves[j]) {
                        proof {
                            assert(models(components@)[i as int] == ComponentModel::Row(leaves@));
                            assert(!spec_leaf_valid(leaves@[j as int]));
                            assert(!spec_row_reproducible(leaves@));
                        }
                        return false;
                    }
                    j += 1;
                }
                proof {
                    assert(models(components@)[i as int] == ComponentModel::Row(leaves@));
                }
            },
            Component::Leaf(leaf) => {
                if !is_valid(leaf) {
                    proof {
                        assert(models(components@)[i as int] == ComponentModel::Leaf(*leaf));
                    }
                    return false;
                }
                proof {
                    assert(models(components@)[i as int] == ComponentModel::Leaf(*leaf));
                }
            },
        }
        i += 1;
    }
    true
}

} // verus!
