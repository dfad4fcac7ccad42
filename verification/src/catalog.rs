//! The in-memory catalog of the template library: one entry per class, each
//! holding the animation variants found in that class's folder, and the
//! transform stored for each variant.
//!
//! The catalog is built once from a filesystem scan (the caller lists each
//! class folder's subdirectories and hands the names in), is mutated only by
//! the transform operations here, and is read by the staging and patching
//! planners. A variant is *selected* when its transform is modified; a class
//! is selected when at least one of its variants is.

use vstd::prelude::*;
use crate::class::Class;
use crate::class::class_order;
use crate::class::all_classes;
use crate::origin::Origin;
use crate::origin::OriginV;
use crate::origin::zero_origin;
use crate::origin::origin_modified;

verus! {

/// One animation variant: its folder name and its stored transform.
pub struct Animation {
    pub name: String,
    pub origin: Origin,
}

/// Mathematical value of an [`Animation`].
#[verifier::ext_equal]
pub ghost struct AnimationV {
    pub name: Seq<char>,
    pub origin: OriginV,
}

impl View for Animation {
    type V = AnimationV;

    open spec fn view(&self) -> AnimationV {
        AnimationV { name: self.name@, origin: self.origin@ }
    }
}

/// The variants of one class, in filesystem enumeration order.
pub struct ClassAnimations {
    pub class: Class,
    pub animations: Vec<Animation>,
}

/// Mathematical value of a [`ClassAnimations`].
#[verifier::ext_equal]
pub ghost struct ClassAnimationsV {
    pub class: Class,
    pub animations: Seq<AnimationV>,
}

/// The views of a sequence of animations.
pub open spec fn anim_views(s: Seq<Animation>) -> Seq<AnimationV> {
    s.map_values(|a: Animation| a@)
}

impl View for ClassAnimations {
    type V = ClassAnimationsV;

    open spec fn view(&self) -> ClassAnimationsV {
        ClassAnimationsV { class: self.class, animations: anim_views(self.animations@) }
    }
}

/// The whole catalog: one folder entry per class, in declaration order.
pub struct Sca {
    pub folders: Vec<ClassAnimations>,
}

/// The views of a sequence of class folders.
pub open spec fn folder_views(s: Seq<ClassAnimations>) -> Seq<ClassAnimationsV> {
    s.map_values(|c: ClassAnimations| c@)
}

impl View for Sca {
    type V = Seq<ClassAnimationsV>;

    open spec fn view(&self) -> Seq<ClassAnimationsV> {
        folder_views(self.folders@)
    }
}

/// A well-formed catalog has exactly one entry per class, in order.
pub open spec fn sca_wf(v: Seq<ClassAnimationsV>) -> bool {
    &&& v.len() == class_order().len()
    &&& forall|i: int| 0 <= i < v.len() ==> #[trigger] v[i].class == class_order()[i]
}

/// A variant is selected exactly when its transform is modified.
pub open spec fn anim_selected(a: AnimationV) -> bool {
    origin_modified(a.origin)
}

/// The selected variants of one class, in order.
pub open spec fn selected_anims(s: Seq<AnimationV>) -> Seq<AnimationV>
    decreases s.len(),
{
    if s.len() == 0 {
        Seq::empty()
    } else {
        let rest = selected_anims(s.drop_last());
        if anim_selected(s.last()) {
            rest.push(s.last())
        } else {
            rest
        }
    }
}

/// A class is selected when at least one of its variants is.
pub open spec fn class_selected(c: ClassAnimationsV) -> bool {
    exists|i: int| 0 <= i < c.animations.len() && anim_selected(#[trigger] c.animations[i])
}

/// The selected classes of the catalog, in order.
pub open spec fn selected_classes(v: Seq<ClassAnimationsV>) -> Seq<ClassAnimationsV>
    decreases v.len(),
{
    if v.len() == 0 {
        Seq::empty()
    } else {
        let rest = selected_classes(v.drop_last());
        if class_selected(v.last()) {
            rest.push(v.last())
        } else {
            rest
        }
    }
}

impl ClassAnimations {
    /// Whether at least one variant of this class is selected.
    pub fn has_selected(&self) -> (r: bool)
        ensures
            r == class_selected(self@),
    {
        let n: usize = self.animations.len();
        let mut i: usize = 0;
        while i < n
            invariant
                n == self.animations@.len(),
                i <= n,
                forall|k: int| 0 <= k < i ==> !anim_selected(#[trigger] self@.animations[k]),
            decreases n - i,
        {
            if self.animations[i].origin.is_modified() {
                proof {
                    assert(anim_selected(self@.animations[i as int]));
                }
                return true;
            }
            i = i + 1;
        }
        false
    }

    /// The selected variants of this class, in order.
    pub fn get_selected_animations<'a>(&'a self) -> (r: Vec<&'a Animation>)
        ensures
            r@.map_values(|a: &Animation| a@) == selected_anims(self@.animations),
    {
        let n: usize = self.animations.len();
        let mut result: Vec<&Animation> = Vec::new();
        let mut i: usize = 0;
        while i < n
            invariant
                n == self.animations@.len(),
                i <= n,
                result@.map_values(|a: &Animation| a@) =~= selected_anims(
                    self@.animations.take(i as int),
                ),
            decreases n - i,
        {
            proof {
                assert(self@.animations.take(i + 1).drop_last() =~= self@.animations.take(i as int));
                assert(self@.animations.take(i + 1).last() == self@.animations[i as int]);
            }
            let a: &Animation = &self.animations[i];
            if a.origin.is_modified() {
                result.push(a);
            }
            proof {
                assert(result@.map_values(|x: &Animation| x@) =~= selected_anims(
                    self@.animations.take(i + 1),
                ));
            }
            i = i + 1;
        }
        proof {
            assert(self@.animations.take(n as int) =~= self@.animations);
        }
        result
    }
}

impl Sca {
    /// Well-formedness: one folder per class, in declaration order.
    pub open spec fn wf(&self) -> bool {
        sca_wf(self@)
    }

    /// The selected classes of the catalog, in order.
    pub fn get_selected_classes<'a>(&'a self) -> (r: Vec<&'a ClassAnimations>)
        ensures
            r@.map_values(|c: &ClassAnimations| c@) == selected_classes(self@),
    {
        let n: usize = self.folders.len();
        let mut result: Vec<&ClassAnimations> = Vec::new();
        let mut i: usize = 0;
        while i < n
            invariant
                n == self.folders@.len(),
                i <= n,
                result@.map_values(|c: &ClassAnimations| c@) =~= selected_classes(
                    self@.take(i as int),
                ),
            decreases n - i,
        {
            proof {
                assert(self@.take(i + 1).drop_last() =~= self@.take(i as int));
                assert(self@.take(i + 1).last() == self@[i as int]);
            }
            let c: &ClassAnimations = &self.folders[i];
            if c.has_selected() {
                result.push(c);
            }
            proof {
                assert(result@.map_values(|x: &ClassAnimations| x@) =~= selected_classes(
                    self@.take(i + 1),
                ));
            }
            i = i + 1;
        }
        proof {
            assert(self@.take(n as int) =~= self@);
        }
        result
    }
}

/// One class folder with the given transform written into every variant.
pub open spec fn applied_folder(c: ClassAnimationsV, o: OriginV) -> ClassAnimationsV {
    ClassAnimationsV {
        class: c.class,
        animations: c.animations.map_values(|a: AnimationV| (AnimationV { name: a.name, origin: o })),
    }
}

/// The catalog with the given transform written into every variant.
pub open spec fn applied_catalog(v: Seq<ClassAnimationsV>, o: OriginV) -> Seq<ClassAnimationsV> {
    v.map_values(|c: ClassAnimationsV| applied_folder(c, o))
}

/// The catalog with every transform reset to zero.
pub open spec fn zeroed_catalog(v: Seq<ClassAnimationsV>) -> Seq<ClassAnimationsV> {
    applied_catalog(v, zero_origin())
}

/// `j` is the index of the first variant named `n` in `s`.
pub open spec fn first_name_match(s: Seq<AnimationV>, n: Seq<char>, j: int) -> bool {
    &&& 0 <= j < s.len()
    &&& s[j].name == n
    &&& forall|k: int| 0 <= k < j ==> (#[trigger] s[k]).name != n
}

/// `i` is the index of the first folder of class `c` in `v`.
pub open spec fn first_class_match(v: Seq<ClassAnimationsV>, c: Class, i: int) -> bool {
    &&& 0 <= i < v.len()
    &&& v[i].class == c
    &&& forall|k: int| 0 <= k < i ==> (#[trigger] v[k]).class != c
}

/// `(i, j)` names the one variant that `reset_origin(c, n)` resets: the
/// first variant named `n` inside the first folder of class `c`.
pub open spec fn reset_target(v: Seq<ClassAnimationsV>, c: Class, n: Seq<char>, i: int, j: int) -> bool {
    &&& first_class_match(v, c, i)
    &&& first_name_match(v[i].animations, n, j)
}

impl Sca {
    /// Builds a fresh catalog: one folder per class in declaration order,
    /// one variant with a zero transform for each name in that class's
    /// listing. `listings` holds, for each class in order, the names of the
    /// immediate subdirectories of its library folder.
    pub fn new(listings: Vec<Vec<String>>) -> (r: Self)
        requires
            listings@.len() == class_order().len(),
        ensures
            r.wf(),
            forall|i: int| 0 <= i < class_order().len() ==> {
                &&& (#[trigger] r@[i]).class == class_order()[i]
                &&& r@[i].animations.len() == listings@[i]@.len()
                &&& forall|j: int| 0 <= j < listings@[i]@.len() ==> {
                    &&& (#[trigger] r@[i].animations[j]).name == listings@[i]@[j]@
                    &&& r@[i].animations[j].origin == zero_origin()
                }
            },
    {
        let classes: Vec<Class> = all_classes();
        let n: usize = classes.len();
        let mut folders: Vec<ClassAnimations> = Vec::new();
        let mut i: usize = 0;
        while i < n
            invariant
                classes@ == class_order(),
                n == class_order().len(),
                listings@.len() == class_order().len(),
                i <= n,
                folders@.len() == i,
                forall|k: int| 0 <= k < i ==> {
                    &&& (#[trigger] folders@[k]).class == class_order()[k]
                    &&& folders@[k].animations@.len() == listings@[k]@.len()
                    &&& forall|j: int| 0 <= j < listings@[k]@.len() ==> {
                        &&& (#[trigger] folders@[k].animations@[j])@.name == listings@[k]@[j]@
                        &&& folders@[k].animations@[j]@.origin == zero_origin()
                    }
                },
            decreases n - i,
        {
            let listing: &Vec<String> = &listings[i];
            let m: usize = listing.len();
            let mut anims: Vec<Animation> = Vec::new();
            let mut j: usize = 0;
            while j < m
                invariant
                    m == listing@.len(),
                    j <= m,
                    anims@.len() == j,
                    forall|k: int| 0 <= k < j ==> {
                        &&& (#[trigger] anims@[k])@.name == listing@[k]@
                        &&& anims@[k]@.origin == zero_origin()
                    },
                decreases m - j,
            {
                anims.push(Animation { name: listing[j].clone(), origin: Origin::default() });
                j = j + 1;
            }
            folders.push(ClassAnimations { class: classes[i], animations: anims });
            i = i + 1;
        }
        let r = Sca { folders };
        proof {
            assert forall|i: int| 0 <= i < class_order().len() implies {
                &&& (#[trigger] r@[i]).class == class_order()[i]
                &&& r@[i].animations.len() == r.folders@[i]@.animations.len()
            } by {
                assert(r@[i] == r.folders@[i]@);
            }
            assert forall|i: int, j: int|
                0 <= i < class_order().len() && 0 <= j < listings@[i]@.len() implies {
                &&& (#[trigger] r@[i].animations[j]).name == listings@[i]@[j]@
                &&& r@[i].animations[j].origin == zero_origin()
            } by {
                assert(r@[i] == r.folders@[i]@);
                assert(r@[i].animations[j] == r.folders@[i].animations@[j]@);
            }
        }
        r
    }

    /// Resets the transform of the first variant named `name` in the first
    /// folder of class `class`; leaves the catalog unchanged when no folder
    /// or no variant matches.
    pub fn reset_origin(&mut self, class: &Class, name: &String)
        ensures
            old(self).wf() ==> final(self).wf(),
            final(self)@.len() == old(self)@.len(),
            forall|i: int| 0 <= i < old(self)@.len() ==> {
                &&& (#[trigger] final(self)@[i]).class == old(self)@[i].class
                &&& final(self)@[i].animations.len() == old(self)@[i].animations.len()
                &&& forall|j: int| 0 <= j < old(self)@[i].animations.len()
                    && reset_target(old(self)@, *class, name@, i, j)
                    ==> (#[trigger] final(self)@[i].animations[j])
                        == (AnimationV { name: old(self)@[i].animations[j].name, origin: zero_origin() })
                &&& forall|j: int| 0 <= j < old(self)@[i].animations.len()
                    && !reset_target(old(self)@, *class, name@, i, j)
                    ==> (#[trigger] final(self)@[i].animations[j]) == old(self)@[i].animations[j]
            },
    {
        let ci: usize = match find_first_class(&self.folders, *class) {
            Option::Some(c) => c,
            Option::None => {
                proof {
                    assert forall|i: int, j: int|
                        !reset_target(old(self)@, *class, name@, i, j) by {
                        if 0 <= i < old(self)@.len() {
                            assert(old(self)@[i].class != *class);
                        }
                    }
                }
                return;
            },
        };
        let aj: usize = match find_first_name(&self.folders[ci].animations, name) {
            Option::Some(a) => a,
            Option::None => {
                proof {
                    assert(self@[ci as int].animations
                        == anim_views(self.folders@[ci as int].animations@));
                    assert forall|i: int, j: int|
                        !reset_target(old(self)@, *class, name@, i, j) by {
                        if first_class_match(old(self)@, *class, i) {
                            assert(i == ci as int) by {
                                if i < ci as int {
                                    assert(old(self)@[i].class != *class);
                                } else if i > ci as int {
                                    assert(old(self)@[ci as int].class == *class);
                                }
                            }
                            if 0 <= j < old(self)@[i].animations.len() {
                                assert(old(self)@[i].animations[j].name != name@);
                            }
                        }
                    }
                }
                return;
            },
        };
        proof {
            assert(self@[ci as int].animations
                == anim_views(self.folders@[ci as int].animations@));
            assert(first_class_match(old(self)@, *class, ci as int));
            assert(first_name_match(old(self)@[ci as int].animations, name@, aj as int));
        }
        self.folders[ci].animations[aj].origin.reset();
        proof {
            let ghost v0 = old(self)@;
            assert forall|i: int| 0 <= i < v0.len() implies {
                &&& (#[trigger] self@[i]).class == v0[i].class
                &&& self@[i].animations.len() == v0[i].animations.len()
            } by {
                assert(self@[i] == self.folders@[i]@);
                assert(v0[i] == old(self).folders@[i]@);
                if i != ci as int {
                    assert(self.folders@[i] == old(self).folders@[i]);
                }
            }
            assert forall|i: int, j: int|
                0 <= i < v0.len() && 0 <= j < v0[i].animations.len() implies
                (#[trigger] self@[i].animations[j]) == (
                    if reset_target(v0, *class, name@, i, j) {
                        (AnimationV { name: v0[i].animations[j].name, origin: zero_origin() })
                    } else {
                        v0[i].animations[j]
                    }
                ) by {
                assert(self@[i] == self.folders@[i]@);
                assert(v0[i] == old(self).folders@[i]@);
                assert(self@[i].animations[j] == self.folders@[i].animations@[j]@);
                assert(v0[i].animations[j] == old(self).folders@[i].animations@[j]@);
                if reset_target(v0, *class, name@, i, j) {
                    assert(i == ci as int) by {
                        if i < ci as int {
                            assert(v0[i].class != *class);
                        } else if i > ci as int {
                            assert(v0[ci as int].class == *class);
                        }
                    }
                    assert(j == aj as int) by {
                        if j < aj as int {
                            assert(v0[i].animations[j].name != name@);
                        } else if j > aj as int {
                            assert(v0[i].animations[aj as int].name == name@);
                        }
                    }
                } else {
                    if i == ci as int && j == aj as int {
                        assert(reset_target(v0, *class, name@, i, j));
                    } else if i == ci as int {
                        assert(self.folders@[i].animations@[j]
                            == old(self).folders@[i].animations@[j]);
                    } else {
                        assert(self.folders@[i] == old(self).folders@[i]);
                    }
                }
            }
        }
    }

    /// Resets every variant's transform to zero.
    pub fn reset_all_origin(&mut self)
        ensures
            old(self).wf() ==> final(self).wf(),
            final(self)@ == zeroed_catalog(old(self)@),
    {
        let zero: Origin = Origin::default();
        self.apply_to_all_origin(&zero);
    }

    /// Overwrites every variant's transform with the given value.
    pub fn apply_to_all_origin(&mut self, origin: &Origin)
        ensures
            old(self).wf() ==> final(self).wf(),
            final(self)@ == applied_catalog(old(self)@, origin@),
    {
        let n: usize = self.folders.len();
        let mut new_folders: Vec<ClassAnimations> = Vec::new();
        let mut i: usize = 0;
        while i < n
            invariant
                n == self.folders@.len(),
                *self == *old(self),
                i <= n,
                new_folders@.len() == i,
                forall|k: int| 0 <= k < i ==> {
                    &&& (#[trigger] new_folders@[k]).class == self.folders@[k].class
                    &&& new_folders@[k].animations@.len() == self.folders@[k].animations@.len()
                    &&& forall|j: int| 0 <= j < self.folders@[k].animations@.len() ==> {
                        &&& (#[trigger] new_folders@[k].animations@[j])@.name
                            == self.folders@[k].animations@[j]@.name
                        &&& new_folders@[k].animations@[j]@.origin == origin@
                    }
                },
            decreases n - i,
        {
            let src: &ClassAnimations = &self.folders[i];
            let m: usize = src.animations.len();
            let mut anims: Vec<Animation> = Vec::new();
            let mut j: usize = 0;
            while j < m
                invariant
                    m == src.animations@.len(),
                    j <= m,
                    anims@.len() == j,
                    forall|k: int| 0 <= k < j ==> {
                        &&& (#[trigger] anims@[k])@.name == src.animations@[k]@.name
                        &&& anims@[k]@.origin == origin@
                    },
                decreases m - j,
            {
                anims.push(Animation { name: src.animations[j].name.clone(), origin: origin.duplicate() });
                j = j + 1;
            }
            new_folders.push(ClassAnimations { class: src.class, animations: anims });
            i = i + 1;
        }
        self.folders = new_folders;
        proof {
            let ghost w = applied_catalog(old(self)@, origin@);
            assert forall|k: int| 0 <= k < old(self)@.len() implies self@[k] == w[k] by {
                assert(self@[k] == self.folders@[k]@);
                assert(w[k] == applied_folder(old(self)@[k], origin@));
                assert(old(self)@[k] == old(self).folders@[k]@);
                assert forall|j: int| 0 <= j < old(self).folders@[k].animations@.len()
                    implies self@[k].animations[j] == w[k].animations[j] by {
                    assert(self@[k].animations[j] == self.folders@[k].animations@[j]@);
                    assert(old(self)@[k].animations[j] == old(self).folders@[k].animations@[j]@);
                }
                assert(self@[k].animations =~= w[k].animations);
                assert(self@[k] =~~= w[k]);
            }
            assert(self@ =~= w);
        }
    }
}

/// Index of the first folder of the given class, scanning in order.
fn find_first_class(folders: &Vec<ClassAnimations>, class: Class) -> (r: Option<usize>)
    ensures
        match r {
            Option::Some(ci) => ci < folders@.len() && first_class_match(
                folder_views(folders@),
                class,
                ci as int,
            ),
            Option::None => forall|k: int|
                0 <= k < folders@.len() ==> (#[trigger] folder_views(folders@)[k]).class != class,
        },
{
    let n: usize = folders.len();
    let mut i: usize = 0;
    while i < n
        invariant
            n == folders@.len(),
            i <= n,
            forall|k: int| 0 <= k < i ==> (#[trigger] folders@[k]).class != class,
        decreases n - i,
    {
        if folders[i].class == class {
            proof {
                assert forall|k: int| 0 <= k < i implies (#[trigger] folder_views(folders@)[k]).class
                    != class by {
                    assert(folder_views(folders@)[k] == folders@[k]@);
                }
                assert(folder_views(folders@)[i as int] == folders@[i as int]@);
            }
            return Option::Some(i);
        }
        i = i + 1;
    }
    proof {
        assert forall|k: int| 0 <= k < folders@.len() implies (#[trigger] folder_views(
            folders@,
        )[k]).class != class by {
            assert(folder_views(folders@)[k] == folders@[k]@);
        }
    }
    Option::None
}

/// Index of the first variant with the given name, scanning in order.
fn find_first_name(anims: &Vec<Animation>, name: &String) -> (r: Option<usize>)
    ensures
        match r {
            Option::Some(aj) => aj < anims@.len() && first_name_match(
                anim_views(anims@),
                name@,
                aj as int,
            ),
            Option::None => forall|k: int|
                0 <= k < anims@.len() ==> (#[trigger] anim_views(anims@)[k]).name != name@,
        },
{
    let n: usize = anims.len();
    let mut i: usize = 0;
    while i < n
        invariant
            n == anims@.len(),
            i <= n,
            forall|k: int| 0 <= k < i ==> (#[trigger] anims@[k])@.name != name@,
        decreases n - i,
    {
        if anims[i].name == *name {
            proof {
                assert forall|k: int| 0 <= k < i implies (#[trigger] anim_views(anims@)[k]).name
                    != name@ by {
                    assert(anim_views(anims@)[k] == anims@[k]@);
                }
                assert(anim_views(anims@)[i as int] == anims@[i as int]@);
            }
            return Option::Some(i);
        }
        i = i + 1;
    }
    proof {
        assert forall|k: int| 0 <= k < anims@.len() implies (#[trigger] anim_views(anims@)[k]).name
            != name@ by {
            assert(anim_views(anims@)[k] == anims@[k]@);
        }
    }
    Option::None
}

/// No variant of a zeroed catalog is selected, so after `reset_all_origin`
/// the selection is always empty.
pub proof fn lemma_reset_all_clears_selection(v: Seq<ClassAnimationsV>)
    ensures
        selected_classes(zeroed_catalog(v)) == Seq::<ClassAnimationsV>::empty(),
    decreases v.len(),
{
    let z = zeroed_catalog(v);
    if v.len() == 0 {
        assert(z =~= Seq::<ClassAnimationsV>::empty());
    } else {
        lemma_reset_all_clears_selection(v.drop_last());
        assert(z.drop_last() =~= zeroed_catalog(v.drop_last()));
        assert(!class_selected(z.last()));
    }
}

/// After `apply_to_all_origin` with a modified transform, every variant of
/// every class is selected.
pub proof fn lemma_apply_to_all_selects_every_variant(v: Seq<ClassAnimationsV>, o: OriginV)
    requires
        origin_modified(o),
    ensures
        forall|i: int| 0 <= i < v.len() ==> selected_anims(
            (#[trigger] applied_catalog(v, o)[i]).animations,
        ) == applied_catalog(v, o)[i].animations,
{
    assert forall|i: int| 0 <= i < v.len() implies selected_anims(
        (#[trigger] applied_catalog(v, o)[i]).animations,
    ) == applied_catalog(v, o)[i].animations by {
        lemma_all_selected_is_identity(applied_catalog(v, o)[i].animations);
    }
}

/// After `apply_to_all_origin` with a modified transform, every class that
/// has at least one variant is selected; with no variantless classes the
/// selection is the whole catalog.
pub proof fn lemma_apply_to_all_selects_every_class(v: Seq<ClassAnimationsV>, o: OriginV)
    requires
        origin_modified(o),
        forall|i: int| 0 <= i < v.len() ==> (#[trigger] v[i]).animations.len() > 0,
    ensures
        selected_classes(applied_catalog(v, o)) == applied_catalog(v, o),
    decreases v.len(),
{
    let w = applied_catalog(v, o);
    if v.len() == 0 {
        assert(w =~= Seq::<ClassAnimationsV>::empty());
        assert(selected_classes(w) =~= w);
    } else {
        lemma_apply_to_all_selects_every_class(v.drop_last(), o);
        assert(w.drop_last() =~= applied_catalog(v.drop_last(), o));
        assert(anim_selected(w.last().animations[0]));
        assert(class_selected(w.last()));
        assert(selected_classes(w) =~= w);
    }
}

/// A sequence of variants that are all selected is its own selection.
pub proof fn lemma_all_selected_is_identity(s: Seq<AnimationV>)
    requires
        forall|j: int| 0 <= j < s.len() ==> anim_selected(#[trigger] s[j]),
    ensures
        selected_anims(s) == s,
    decreases s.len(),
{
    if s.len() == 0 {
        assert(selected_anims(s) =~= s);
    } else {
        lemma_all_selected_is_identity(s.drop_last());
        assert(selected_anims(s) =~= s);
    }
}

} // verus!
