//! The initial dock layout of an application: which declared panels open
//! as tabs at start, and how the dock area is split around them.
//!
//! A layout is checked against the declared panels before the dock is
//! built. The split fractions are the one part of a layout that this module
//! does not hold: each split carries, in their place, whether its fraction
//! lies between 0 and 1.

use vstd::prelude::*;
use vstd::string::StringExecFns;

use crate::text::{clone_strings, contains_text, string_eq_str, texts_of, vec_contains_str};
use crate::PanelDefinition;

verus! {

/// The side of the anchor panel on which a split places its panels.
#[derive(Debug, Clone, Copy, PartialEq, Eq, Structural)]
pub enum SplitDirection {
    Left,
    Right,
    Above,
    Below,
}

/// One split of the dock area, placing `panel_ids` beside the panel
/// `anchor_panel_id`.
#[derive(Debug)]
pub struct SplitPlan {
    pub anchor_panel_id: String,
    pub direction: SplitDirection,
    /// Whether the split's fraction lies between 0 and 1, both included.
    pub fraction_in_range: bool,
    pub panel_ids: Vec<String>,
}

/// An initial layout: the panels of the root tab group, the splits in the
/// order they are applied, and the panel to select.
#[derive(Debug)]
pub struct LayoutPlan {
    pub root_panel_ids: Vec<String>,
    pub splits: Vec<SplitPlan>,
    pub selected_panel_id: Option<String>,
}

/// Why a layout was refused.
#[derive(Debug, Clone)]
pub enum LayoutError {
    /// The root tab group is empty.
    EmptyRoot,
    /// A referenced panel id is not declared.
    UnknownPanel(String),
    /// A referenced panel is declared but not initially visible.
    HiddenPanel(String),
    /// A panel id occurs more than once in the layout.
    DuplicatePanel(String),
    /// The fraction of the split anchored at this panel is outside 0..=1.
    FractionOutOfRange(String),
    /// The split anchored at this panel places no panel.
    EmptySplit(String),
    /// A split's anchor is not in the layout when the split is applied.
    AnchorMissing(String),
    /// The selected panel is not in the layout.
    SelectedMissing(String),
}

/// The abstract value of a [`LayoutError`], with the panel id as characters.
pub enum LayoutFault {
    EmptyRoot,
    UnknownPanel(Seq<char>),
    HiddenPanel(Seq<char>),
    DuplicatePanel(Seq<char>),
    FractionOutOfRange(Seq<char>),
    EmptySplit(Seq<char>),
    AnchorMissing(Seq<char>),
    SelectedMissing(Seq<char>),
}

impl View for LayoutError {
    type V = LayoutFault;

    open spec fn view(&self) -> LayoutFault {
        match self {
            LayoutError::EmptyRoot => LayoutFault::EmptyRoot,
            LayoutError::UnknownPanel(id) => LayoutFault::UnknownPanel(id@),
            LayoutError::HiddenPanel(id) => LayoutFault::HiddenPanel(id@),
            LayoutError::DuplicatePanel(id) => LayoutFault::DuplicatePanel(id@),
            LayoutError::FractionOutOfRange(id) => LayoutFault::FractionOutOfRange(id@),
            LayoutError::EmptySplit(id) => LayoutFault::EmptySplit(id@),
            LayoutError::AnchorMissing(id) => LayoutFault::AnchorMissing(id@),
            LayoutError::SelectedMissing(id) => LayoutFault::SelectedMissing(id@),
        }
    }
}

/// The text that describes `fault`.
pub open spec fn fault_message(fault: LayoutFault) -> Seq<char> {
    match fault {
        LayoutFault::EmptyRoot => "initial layout root must contain at least one panel"@,
        LayoutFault::UnknownPanel(id) => "layout references unknown panel id '"@ + id + "'"@,
        LayoutFault::HiddenPanel(id) => "layout references initially hidden panel id '"@ + id + "'"@,
        LayoutFault::DuplicatePanel(id) => "panel id '"@ + id + "' appears more than once in layout"@,
        LayoutFault::FractionOutOfRange(id) => "split fraction for '"@ + id
            + "' must be between 0 and 1"@,
        LayoutFault::EmptySplit(id) => "split anchored at '"@ + id
            + "' must contain at least one panel"@,
        LayoutFault::AnchorMissing(id) => "split anchor panel '"@ + id
            + "' is not present in the current layout"@,
        LayoutFault::SelectedMissing(id) => "selected panel id '"@ + id
            + "' is not present in the layout"@,
    }
}

fn quoted(prefix: &str, id: &String, suffix: &str) -> (r: String)
    ensures
        r@ == prefix@ + id@ + suffix@,
{
    let mut s = prefix.to_owned();
    s.append(id.as_str());
    s.append(suffix);
    s
}

impl LayoutError {
    /// The text that describes the error.
    pub fn message(&self) -> (r: String)
        ensures
            r@ == fault_message(self@),
    {
        match self {
            LayoutError::EmptyRoot => {
                proof {
                    reveal_strlit("initial layout root must contain at least one panel");
                }
                "initial layout root must contain at least one panel".to_owned()
            },
            LayoutError::UnknownPanel(id) => quoted("layout references unknown panel id '", id, "'"),
            LayoutError::HiddenPanel(id) => quoted(
                "layout references initially hidden panel id '",
                id,
                "'",
            ),
            LayoutError::DuplicatePanel(id) => quoted(
                "panel id '",
                id,
                "' appears more than once in layout",
            ),
            LayoutError::FractionOutOfRange(id) => quoted(
                "split fraction for '",
                id,
                "' must be between 0 and 1",
            ),
            LayoutError::EmptySplit(id) => quoted(
                "split anchored at '",
                id,
                "' must contain at least one panel",
            ),
            LayoutError::AnchorMissing(id) => quoted(
                "split anchor panel '",
                id,
                "' is not present in the current layout",
            ),
            LayoutError::SelectedMissing(id) => quoted(
                "selected panel id '",
                id,
                "' is not present in the layout",
            ),
        }
    }
}

/// Whether some panel in `panels` has the id `id`.
pub open spec fn declared(panels: Seq<PanelDefinition>, id: Seq<char>) -> bool {
    exists|i: int| 0 <= i < panels.len() && #[trigger] panels[i].id@ == id
}

/// Whether some initially visible panel in `panels` has the id `id`.
pub open spec fn visible(panels: Seq<PanelDefinition>, id: Seq<char>) -> bool {
    exists|i: int| 0 <= i < panels.len() && #[trigger] panels[i].id@ == id && panels[i].initially_visible
}

/// Checks each id of `ids` in order: it must be declared, initially
/// visible, and not among the ids already `used`. The first failing id
/// gives the fault; otherwise the result is `used` with all of `ids` added.
pub open spec fn check_ids(ids: Seq<Seq<char>>, used: Set<Seq<char>>, panels: Seq<PanelDefinition>) -> Result<
    Set<Seq<char>>,
    LayoutFault,
>
    decreases ids.len(),
{
    if ids.len() == 0 {
        Ok(used)
    } else {
        let id = ids[0];
        if !declared(panels, id) {
            Err(LayoutFault::UnknownPanel(id))
        } else if !visible(panels, id) {
            Err(LayoutFault::HiddenPanel(id))
        } else if used.contains(id) {
            Err(LayoutFault::DuplicatePanel(id))
        } else {
            check_ids(ids.drop_first(), used.insert(id), panels)
        }
    }
}

/// Checks the splits in order: each must have a fraction in range, place at
/// least one panel, and place only ids that pass [`check_ids`].
pub open spec fn check_splits(splits: Seq<SplitPlan>, used: Set<Seq<char>>, panels: Seq<PanelDefinition>) -> Result<
    Set<Seq<char>>,
    LayoutFault,
>
    decreases splits.len(),
{
    if splits.len() == 0 {
        Ok(used)
    } else {
        let s = splits[0];
        if !s.fraction_in_range {
            Err(LayoutFault::FractionOutOfRange(s.anchor_panel_id@))
        } else if s.panel_ids@.len() == 0 {
            Err(LayoutFault::EmptySplit(s.anchor_panel_id@))
        } else {
            match check_ids(texts_of(s.panel_ids@), used, panels) {
                Err(e) => Err(e),
                Ok(u) => check_splits(splits.drop_first(), u, panels),
            }
        }
    }
}

/// Applies the splits in order to a layout that holds the panels `present`:
/// each split's anchor must be present when the split is applied, and the
/// split's panels are present afterwards. The result is the panels present
/// at the end.
pub open spec fn check_anchors(splits: Seq<SplitPlan>, present: Seq<Seq<char>>) -> Result<
    Seq<Seq<char>>,
    LayoutFault,
>
    decreases splits.len(),
{
    if splits.len() == 0 {
        Ok(present)
    } else {
        let s = splits[0];
        if !present.contains(s.anchor_panel_id@) {
            Err(LayoutFault::AnchorMissing(s.anchor_panel_id@))
        } else {
            check_anchors(splits.drop_first(), present + texts_of(s.panel_ids@))
        }
    }
}

/// The outcome of checking `layout` against the declared `panels`: the
/// root must not be empty; then the ids of the root and of the splits are
/// checked in order; then the split anchors; then the selected panel.
pub open spec fn layout_outcome(layout: LayoutPlan, panels: Seq<PanelDefinition>) -> Result<(), LayoutFault> {
    let root = texts_of(layout.root_panel_ids@);
    if root.len() == 0 {
        Err(LayoutFault::EmptyRoot)
    } else {
        match check_ids(root, Set::empty(), panels) {
            Err(e) => Err(e),
            Ok(used) => match check_splits(layout.splits@, used, panels) {
                Err(e) => Err(e),
                Ok(_) => match check_anchors(layout.splits@, root) {
                    Err(e) => Err(e),
                    Ok(present) => match layout.selected_panel_id {
                        Some(selected) => if present.contains(selected@) {
                            Ok(())
                        } else {
                            Err(LayoutFault::SelectedMissing(selected@))
                        },
                        None => Ok(()),
                    },
                },
            },
        }
    }
}

fn is_declared(panels: &Vec<PanelDefinition>, id: &String) -> (r: bool)
    ensures
        r == declared(panels@, id@),
{
    let mut i: usize = 0;
    while i < panels.len()
        invariant
            0 <= i <= panels.len(),
            forall|j: int| 0 <= j < i ==> #[trigger] panels@[j].id@ != id@,
        decreases panels.len() - i,
    {
        if panels[i].id == *id {
            return true;
        }
        i = i + 1;
    }
    false
}

fn is_visible(panels: &Vec<PanelDefinition>, id: &String) -> (r: bool)
    ensures
        r == visible(panels@, id@),
{
    let mut i: usize = 0;
    while i < panels.len()
        invariant
            0 <= i <= panels.len(),
            forall|j: int|
                0 <= j < i ==> !(#[trigger] panels@[j].id@ == id@ && panels@[j].initially_visible),
        decreases panels.len() - i,
    {
        if panels[i].initially_visible && panels[i].id == *id {
            return true;
        }
        i = i + 1;
    }
    false
}

/// Runs [`check_ids`] on `ids`, recording the accepted ids in `used`.
fn check_id_list(ids: &Vec<String>, used: &mut Vec<String>, panels: &Vec<PanelDefinition>) -> (r: Result<
    (),
    LayoutError,
>)
    ensures
        match check_ids(texts_of(ids@), texts_of(old(used)@).to_set(), panels@) {
            Ok(u) => r is Ok && texts_of(final(used)@).to_set() == u,
            Err(e) => r is Err && r->Err_0@ == e,
        },
{
    let ghost all = texts_of(ids@);
    let ghost used0 = texts_of(used@).to_set();
    let mut i: usize = 0;
    assert(all.subrange(0, all.len() as int) =~= all);
    assert(texts_of(ids@).subrange(0, 0) =~= Seq::<Seq<char>>::empty());
    while i < ids.len()
        invariant
            0 <= i <= ids.len(),
            all == texts_of(ids@),
            used0 == texts_of(old(used)@).to_set(),
            check_ids(all, used0, panels@) == check_ids(
                all.subrange(i as int, all.len() as int),
                texts_of(used@).to_set(),
                panels@,
            ),
        decreases ids.len() - i,
    {
        let id = &ids[i];
        let ghost rest = all.subrange(i as int, all.len() as int);
        assert(rest[0] == id@);
        assert(rest.drop_first() =~= all.subrange(i + 1, all.len() as int));
        assert(rest.len() > 0);
        if !is_declared(panels, id) {
            return Err(LayoutError::UnknownPanel(id.clone()));
        }
        if !is_visible(panels, id) {
            return Err(LayoutError::HiddenPanel(id.clone()));
        }
        if vec_contains_str(used, id.as_str()) {
            proof {
                let j = choose|j: int| 0 <= j < used@.len() && #[trigger] used@[j]@ == id@;
                assert(texts_of(used@)[j] == id@);
            }
            return Err(LayoutError::DuplicatePanel(id.clone()));
        }
        proof {
            if texts_of(used@).to_set().contains(id@) {
                let j = choose|j: int| 0 <= j < texts_of(used@).len() && texts_of(used@)[j] == id@;
                assert(used@[j]@ == id@);
            }
        }
        let ghost before = used@;
        used.push(id.clone());
        proof {
            assert(texts_of(used@) =~= texts_of(before).push(id@));
            assert(texts_of(used@).to_set() =~= texts_of(before).to_set().insert(id@)) by {
                vstd::seq_lib::lemma_seq_contains_after_push(texts_of(before), id@, id@);
                assert forall|x: Seq<char>|
                    texts_of(used@).to_set().contains(x) <==> texts_of(before).to_set().insert(
                        x,
                    ).contains(x) && (x == id@ || texts_of(before).to_set().contains(x)) by {
                    vstd::seq_lib::lemma_seq_contains_after_push(texts_of(before), id@, x);
                }
            }
        }
        i = i + 1;
    }
    assert(all.subrange(ids.len() as int, all.len() as int).len() == 0);
    Ok(())
}

/// Checks `layout` against the declared `panels`, in the order and with
/// the faults that [`layout_outcome`] states.
pub fn validate_layout(layout: &LayoutPlan, panels: &Vec<PanelDefinition>) -> (r: Result<(), LayoutError>)
    ensures
        match layout_outcome(*layout, panels@) {
            Ok(()) => r is Ok,
            Err(e) => r is Err && r->Err_0@ == e,
        },
{
    if layout.root_panel_ids.len() == 0 {
        return Err(LayoutError::EmptyRoot);
    }
    let mut used: Vec<String> = Vec::new();
    proof {
        assert(texts_of(used@).to_set() =~= Set::<Seq<char>>::empty());
    }
    match check_id_list(&layout.root_panel_ids, &mut used, panels) {
        Err(e) => {
            return Err(e);
        },
        Ok(()) => {},
    }
    let ghost used_root = texts_of(used@).to_set();
    let ghost splits = layout.splits@;
    let mut i: usize = 0;
    assert(splits.subrange(0, splits.len() as int) =~= splits);
    while i < layout.splits.len()
        invariant
            0 <= i <= layout.splits.len(),
            splits == layout.splits@,
            layout.root_panel_ids@.len() > 0,
            check_ids(texts_of(layout.root_panel_ids@), Set::empty(), panels@) == Ok::<Set<Seq<char>>, LayoutFault>(used_root),
            check_splits(splits, used_root, panels@) == check_splits(
                splits.subrange(i as int, splits.len() as int),
                texts_of(used@).to_set(),
                panels@,
            ),
        decreases layout.splits.len() - i,
    {
        let split = &layout.splits[i];
        let ghost rest = splits.subrange(i as int, splits.len() as int);
        assert(rest[0] == *split);
        assert(rest.drop_first() =~= splits.subrange(i + 1, splits.len() as int));
        if !split.fraction_in_range {
            return Err(LayoutError::FractionOutOfRange(split.anchor_panel_id.clone()));
        }
        if split.panel_ids.len() == 0 {
            return Err(LayoutError::EmptySplit(split.anchor_panel_id.clone()));
        }
        match check_id_list(&split.panel_ids, &mut used, panels) {
            Err(e) => {
                return Err(e);
            },
            Ok(()) => {},
        }
        i = i + 1;
    }
    let mut present = clone_strings(&layout.root_panel_ids);
    let mut k: usize = 0;
    assert(splits.subrange(0, splits.len() as int) =~= splits);
    while k < layout.splits.len()
        invariant
            0 <= k <= layout.splits.len(),
            splits == layout.splits@,
            layout.root_panel_ids@.len() > 0,
            check_ids(texts_of(layout.root_panel_ids@), Set::empty(), panels@) == Ok::<Set<Seq<char>>, LayoutFault>(used_root),
            check_splits(splits, used_root, panels@) is Ok,
            check_anchors(splits, texts_of(layout.root_panel_ids@)) == check_anchors(
                splits.subrange(k as int, splits.len() as int),
                texts_of(present@),
            ),
        decreases layout.splits.len() - k,
    {
        let split = &layout.splits[k];
        let ghost rest = splits.subrange(k as int, splits.len() as int);
        assert(rest[0] == *split);
        assert(rest.drop_first() =~= splits.subrange(k + 1, splits.len() as int));
        let ghost before = present@;
        if !vec_contains_str(&present, split.anchor_panel_id.as_str()) {
            proof {
                if texts_of(present@).contains(split.anchor_panel_id@) {
                    let j = choose|j: int|
                        0 <= j < texts_of(present@).len() && texts_of(present@)[j]
                            == split.anchor_panel_id@;
                    assert(present@[j]@ == split.anchor_panel_id@);
                }
            }
            return Err(LayoutError::AnchorMissing(split.anchor_panel_id.clone()));
        }
        proof {
            let j = choose|j: int|
                0 <= j < present@.len() && #[trigger] present@[j]@ == split.anchor_panel_id@;
            assert(texts_of(present@)[j] == split.anchor_panel_id@);
        }
        let mut placed = clone_strings(&split.panel_ids);
        present.append(&mut placed);
        assert(texts_of(present@) =~= texts_of(before) + texts_of(split.panel_ids@));
        k = k + 1;
    }
    assert(splits.subrange(splits.len() as int, splits.len() as int).len() == 0);
    match &layout.selected_panel_id {
        Some(selected) => {
            if vec_contains_str(&present, selected.as_str()) {
                proof {
                    let j = choose|j: int|
                        0 <= j < present@.len() && #[trigger] present@[j]@ == selected@;
                    assert(texts_of(present@)[j] == selected@);
                }
                Ok(())
            } else {
                proof {
                    if texts_of(present@).contains(selected@) {
                        let j = choose|j: int|
                            0 <= j < texts_of(present@).len() && texts_of(present@)[j] == selected@;
                        assert(present@[j]@ == selected@);
                    }
                }
                Err(LayoutError::SelectedMissing(selected.clone()))
            }
        },
        None => Ok(()),
    }
}

/// The panel ids that the splits of `splits` place, in order.
pub open spec fn split_ids(splits: Seq<SplitPlan>) -> Seq<Seq<char>>
    decreases splits.len(),
{
    if splits.len() == 0 {
        Seq::empty()
    } else {
        texts_of(splits[0].panel_ids@) + split_ids(splits.drop_first())
    }
}

/// Whether each id of `ids` is declared and initially visible, no id occurs
/// twice, and none is in `used`.
pub open spec fn ids_acceptable(ids: Seq<Seq<char>>, used: Set<Seq<char>>, panels: Seq<PanelDefinition>) -> bool {
    &&& forall|i: int| 0 <= i < ids.len() ==> declared(panels, #[trigger] ids[i]) && visible(panels, ids[i])
    &&& forall|i: int| 0 <= i < ids.len() ==> !used.contains(#[trigger] ids[i])
    &&& ids.no_duplicates()
}

/// Whether `layout` is acceptable for the declared `panels`: its root is
/// not empty; every split has a fraction in range and places a panel; every
/// panel id of the layout is declared, initially visible and used once;
/// every split's anchor is among the root's panels and the panels placed by
/// earlier splits; and the selected panel, if any, is in the layout.
pub open spec fn layout_acceptable(layout: LayoutPlan, panels: Seq<PanelDefinition>) -> bool {
    let root = texts_of(layout.root_panel_ids@);
    let splits = layout.splits@;
    let all = root + split_ids(splits);
    &&& root.len() > 0
    &&& forall|k: int|
        0 <= k < splits.len() ==> (#[trigger] splits[k]).fraction_in_range && splits[k].panel_ids@.len()
            > 0
    &&& ids_acceptable(all, Set::empty(), panels)
    &&& forall|k: int|
        0 <= k < splits.len() ==> (root + split_ids(splits.take(k))).contains(
            (#[trigger] splits[k]).anchor_panel_id@,
        )
    &&& (layout.selected_panel_id matches Some(selected) ==> all.contains(selected@))
}

proof fn lemma_check_ids(ids: Seq<Seq<char>>, used: Set<Seq<char>>, panels: Seq<PanelDefinition>)
    ensures
        check_ids(ids, used, panels) is Ok <==> ids_acceptable(ids, used, panels),
        check_ids(ids, used, panels) matches Ok(u) ==> u == used + ids.to_set(),
    decreases ids.len(),
{
    if ids.len() == 0 {
        assert(ids.to_set() =~= Set::<Seq<char>>::empty());
        assert(used + ids.to_set() =~= used);
    } else {
        let x = ids[0];
        let rest = ids.drop_first();
        lemma_check_ids(rest, used.insert(x), panels);
        assert(forall|i: int| 0 <= i < rest.len() ==> rest[i] == ids[i + 1]);
        if ids_acceptable(ids, used, panels) {
            assert(declared(panels, ids[0]) && visible(panels, ids[0]));
            assert(!used.contains(ids[0]));
            assert forall|i: int| 0 <= i < rest.len() implies !used.insert(x).contains(#[trigger] rest[i]) by {
                assert(ids[i + 1] != ids[0]);
                assert(!used.contains(ids[i + 1]));
            }
            assert(rest.no_duplicates()) by {
                assert forall|i: int, j: int|
                    0 <= i < rest.len() && 0 <= j < rest.len() && i != j implies rest[i] != rest[j] by {
                    assert(ids[i + 1] != ids[j + 1]);
                }
            }
            assert forall|i: int| 0 <= i < rest.len() implies declared(panels, #[trigger] rest[i])
                && visible(panels, rest[i]) by {
                assert(declared(panels, ids[i + 1]) && visible(panels, ids[i + 1]));
            }
        }
        if check_ids(ids, used, panels) is Ok {
            assert(ids_acceptable(rest, used.insert(x), panels));
            assert forall|i: int| 0 <= i < ids.len() implies declared(panels, #[trigger] ids[i])
                && visible(panels, ids[i]) by {
                if i > 0 {
                    assert(rest[i - 1] == ids[i]);
                }
            }
            assert forall|i: int| 0 <= i < ids.len() implies !used.contains(#[trigger] ids[i]) by {
                if i > 0 {
                    assert(rest[i - 1] == ids[i]);
                    assert(!used.insert(x).contains(rest[i - 1]));
                }
            }
            assert forall|i: int, j: int|
                0 <= i < ids.len() && 0 <= j < ids.len() && i != j implies ids[i] != ids[j] by {
                if i > 0 && j > 0 {
                    assert(rest[i - 1] != rest[j - 1]);
                } else if i == 0 {
                    assert(!used.insert(x).contains(rest[j - 1]));
                } else {
                    assert(!used.insert(x).contains(rest[i - 1]));
                }
            }
            assert(used.insert(x) + rest.to_set() =~= used + ids.to_set()) by {
                assert forall|y: Seq<char>| ids.to_set().contains(y) <==> (y == x || rest.to_set().contains(y)) by {
                    if ids.to_set().contains(y) {
                        let i = choose|i: int| 0 <= i < ids.len() && ids[i] == y;
                        if i > 0 {
                            assert(rest[i - 1] == y);
                        }
                    }
                    if rest.to_set().contains(y) {
                        let i = choose|i: int| 0 <= i < rest.len() && rest[i] == y;
                        assert(ids[i + 1] == y);
                    }
                    if y == x {
                        assert(ids[0] == y);
                    }
                }
            }
        }
    }
}

proof fn lemma_ids_acceptable_append(
    a: Seq<Seq<char>>,
    b: Seq<Seq<char>>,
    used: Set<Seq<char>>,
    panels: Seq<PanelDefinition>,
)
    ensures
        ids_acceptable(a + b, used, panels) <==> (ids_acceptable(a, used, panels) && ids_acceptable(
            b,
            used + a.to_set(),
            panels,
        )),
{
    let ab = a + b;
    if ids_acceptable(ab, used, panels) {
        assert forall|i: int| 0 <= i < a.len() implies declared(panels, #[trigger] a[i]) && visible(panels, a[i]) by {
            assert(ab[i] == a[i]);
        }
        assert forall|i: int| 0 <= i < a.len() implies !used.contains(#[trigger] a[i]) by {
            assert(ab[i] == a[i]);
        }
        assert forall|i: int, j: int| 0 <= i < a.len() && 0 <= j < a.len() && i != j implies a[i] != a[j] by {
            assert(ab[i] == a[i] && ab[j] == a[j]);
        }
        assert forall|i: int| 0 <= i < b.len() implies declared(panels, #[trigger] b[i]) && visible(panels, b[i]) by {
            assert(ab[a.len() + i] == b[i]);
        }
        assert forall|i: int| 0 <= i < b.len() implies !(used + a.to_set()).contains(#[trigger] b[i]) by {
            assert(ab[a.len() + i] == b[i]);
            if a.to_set().contains(b[i]) {
                let j = choose|j: int| 0 <= j < a.len() && a[j] == b[i];
                assert(ab[j] == b[i]);
            }
        }
        assert forall|i: int, j: int| 0 <= i < b.len() && 0 <= j < b.len() && i != j implies b[i] != b[j] by {
            assert(ab[a.len() + i] == b[i] && ab[a.len() + j] == b[j]);
        }
    }
    if ids_acceptable(a, used, panels) && ids_acceptable(b, used + a.to_set(), panels) {
        assert forall|i: int| 0 <= i < ab.len() implies declared(panels, #[trigger] ab[i]) && visible(panels, ab[i]) by {
            if i < a.len() {
                assert(ab[i] == a[i]);
            } else {
                assert(ab[i] == b[i - a.len()]);
            }
        }
        assert forall|i: int| 0 <= i < ab.len() implies !used.contains(#[trigger] ab[i]) by {
            if i < a.len() {
                assert(ab[i] == a[i]);
            } else {
                assert(ab[i] == b[i - a.len()]);
                assert(!(used + a.to_set()).contains(b[i - a.len()]));
            }
        }
        assert forall|i: int, j: int| 0 <= i < ab.len() && 0 <= j < ab.len() && i != j implies ab[i] != ab[j] by {
            if i < a.len() && j < a.len() {
                assert(ab[i] == a[i] && ab[j] == a[j]);
            } else if i >= a.len() && j >= a.len() {
                assert(ab[i] == b[i - a.len()] && ab[j] == b[j - a.len()]);
            } else if i < a.len() {
                assert(ab[i] == a[i] && ab[j] == b[j - a.len()]);
                assert(a.to_set().contains(a[i]));
                assert(!(used + a.to_set()).contains(b[j - a.len()]));
            } else {
                assert(ab[j] == a[j] && ab[i] == b[i - a.len()]);
                assert(a.to_set().contains(a[j]));
                assert(!(used + a.to_set()).contains(b[i - a.len()]));
            }
        }
    }
}

proof fn lemma_check_splits(splits: Seq<SplitPlan>, used: Set<Seq<char>>, panels: Seq<PanelDefinition>)
    ensures
        check_splits(splits, used, panels) is Ok <==> ((forall|k: int|
            0 <= k < splits.len() ==> (#[trigger] splits[k]).fraction_in_range && splits[k].panel_ids@.len()
                > 0) && ids_acceptable(split_ids(splits), used, panels)),
    decreases splits.len(),
{
    if splits.len() == 0 {
        assert(split_ids(splits) =~= Seq::<Seq<char>>::empty());
    } else {
        let s = splits[0];
        let rest = splits.drop_first();
        let ids = texts_of(s.panel_ids@);
        lemma_check_ids(ids, used, panels);
        lemma_ids_acceptable_append(ids, split_ids(rest), used, panels);
        lemma_check_splits(rest, used + ids.to_set(), panels);
        assert(forall|k: int| 0 <= k < rest.len() ==> rest[k] == splits[k + 1]);
        if check_splits(splits, used, panels) is Ok {
            assert forall|k: int| 0 <= k < splits.len() implies (#[trigger] splits[k]).fraction_in_range
                && splits[k].panel_ids@.len() > 0 by {
                if k > 0 {
                    assert(rest[k - 1] == splits[k]);
                }
            }
        }
        if forall|k: int|
            0 <= k < splits.len() ==> (#[trigger] splits[k]).fraction_in_range && splits[k].panel_ids@.len()
                > 0 {
            assert forall|k: int| 0 <= k < rest.len() implies (#[trigger] rest[k]).fraction_in_range
                && rest[k].panel_ids@.len() > 0 by {
                assert(rest[k] == splits[k + 1]);
            }
        }
    }
}

proof fn lemma_check_anchors(splits: Seq<SplitPlan>, present: Seq<Seq<char>>)
    ensures
        check_anchors(splits, present) is Ok <==> forall|k: int|
            0 <= k < splits.len() ==> (present + split_ids(splits.take(k))).contains(
                (#[trigger] splits[k]).anchor_panel_id@,
            ),
        check_anchors(splits, present) matches Ok(p) ==> p == present + split_ids(splits),
    decreases splits.len(),
{
    if splits.len() == 0 {
        assert(split_ids(splits) =~= Seq::<Seq<char>>::empty());
        assert(present + split_ids(splits) =~= present);
    } else {
        let s = splits[0];
        let rest = splits.drop_first();
        let ids = texts_of(s.panel_ids@);
        lemma_check_anchors(rest, present + ids);
        assert(split_ids(splits) == ids + split_ids(rest));
        assert(present + ids + split_ids(rest) =~= present + split_ids(splits));
        assert forall|k: int| 0 <= k < rest.len() implies #[trigger] split_ids(splits.take(k + 1)) == ids
            + split_ids(rest.take(k)) by {
            assert(splits.take(k + 1)[0] == s);
            assert(splits.take(k + 1).drop_first() =~= rest.take(k));
        }
        assert forall|k: int| 0 <= k < rest.len() implies (present + ids + split_ids(rest.take(k))) =~= (
            present + split_ids(splits.take(k + 1))) by {
            assert(split_ids(splits.take(k + 1)) == ids + split_ids(rest.take(k)));
        }
        assert(split_ids(splits.take(0)) =~= Seq::<Seq<char>>::empty()) by {
            assert(splits.take(0).len() == 0);
        }
        assert(present + split_ids(splits.take(0)) =~= present);
        if check_anchors(splits, present) is Ok {
            assert forall|k: int| 0 <= k < splits.len() implies (present + split_ids(splits.take(k))).contains(
                (#[trigger] splits[k]).anchor_panel_id@,
            ) by {
                if k > 0 {
                    assert(rest[k - 1] == splits[k]);
                    assert((present + ids + split_ids(rest.take(k - 1))) =~= (present + split_ids(splits.take(k))));
                }
            }
        }
        if forall|k: int|
            0 <= k < splits.len() ==> (present + split_ids(splits.take(k))).contains(
                (#[trigger] splits[k]).anchor_panel_id@,
            ) {
            assert(present.contains(splits[0].anchor_panel_id@));
            assert forall|k: int| 0 <= k < rest.len() implies (present + ids + split_ids(rest.take(k))).contains(
                (#[trigger] rest[k]).anchor_panel_id@,
            ) by {
                assert(rest[k] == splits[k + 1]);
                assert((present + ids + split_ids(rest.take(k))) =~= (present + split_ids(splits.take(k + 1))));
            }
        }
    }
}

/// A layout is accepted exactly when it is acceptable: the checks, in
/// whatever order they run, refuse a layout only for a real fault.
pub proof fn law_layout_accepted_iff_acceptable(layout: LayoutPlan, panels: Seq<PanelDefinition>)
    ensures
        layout_outcome(layout, panels) is Ok <==> layout_acceptable(layout, panels),
{
    let root = texts_of(layout.root_panel_ids@);
    let splits = layout.splits@;
    lemma_check_ids(root, Set::empty(), panels);
    assert(Set::<Seq<char>>::empty() + root.to_set() =~= root.to_set());
    lemma_check_splits(splits, root.to_set(), panels);
    lemma_ids_acceptable_append(root, split_ids(splits), Set::empty(), panels);
    lemma_check_anchors(splits, root);
}

} // verus!
