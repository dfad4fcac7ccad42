//! Layout validation and the staging plan.
//!
//! The template library has a fixed two-level shape: each class folder holds
//! direct files and animation folders, and an animation folder holds flat
//! files only. Staging mirrors the selected classes into the staging root;
//! the planner turns the caller's directory listings into the exact list of
//! folders to create and files to copy, and refuses a library in which an
//! animation folder contains a further directory.

use vstd::prelude::*;
use crate::catalog::ClassAnimations;
use crate::catalog::ClassAnimationsV;
use crate::catalog::Sca;
use crate::catalog::selected_classes;
use crate::class::Class;
use crate::class::class_order;
use crate::error::ScaError;
use crate::patch::str_views;

verus! {

/// One entry found inside an animation folder.
pub struct VariantEntry {
    pub name: String,
    pub is_dir: bool,
}

/// Mathematical value of a [`VariantEntry`].
#[verifier::ext_equal]
pub ghost struct VariantEntryV {
    pub name: Seq<char>,
    pub is_dir: bool,
}

impl View for VariantEntry {
    type V = VariantEntryV;

    open spec fn view(&self) -> VariantEntryV {
        VariantEntryV { name: self.name@, is_dir: self.is_dir }
    }
}

/// What one direct entry of a class folder is: a plain file, or an
/// animation folder with its own listing.
pub enum EntryKind {
    File,
    Folder(Vec<VariantEntry>),
}

/// Mathematical value of an [`EntryKind`].
#[verifier::ext_equal]
pub ghost enum EntryKindV {
    File,
    Folder(Seq<VariantEntryV>),
}

impl View for EntryKind {
    type V = EntryKindV;

    open spec fn view(&self) -> EntryKindV {
        match self {
            EntryKind::File => EntryKindV::File,
            EntryKind::Folder(subs) => EntryKindV::Folder(
                subs@.map_values(|e: VariantEntry| e@),
            ),
        }
    }
}

/// One direct entry of a class folder.
pub struct ClassEntry {
    pub name: String,
    pub kind: EntryKind,
}

/// Mathematical value of a [`ClassEntry`].
#[verifier::ext_equal]
pub ghost struct ClassEntryV {
    pub name: Seq<char>,
    pub kind: EntryKindV,
}

impl View for ClassEntry {
    type V = ClassEntryV;

    open spec fn view(&self) -> ClassEntryV {
        ClassEntryV { name: self.name@, kind: self.kind@ }
    }
}

/// The views of a class folder listing.
pub open spec fn entry_views(s: Seq<ClassEntry>) -> Seq<ClassEntryV> {
    s.map_values(|e: ClassEntry| e@)
}

/// The views of all class folder listings.
pub open spec fn listings_views(s: Seq<Vec<ClassEntry>>) -> Seq<Seq<ClassEntryV>> {
    s.map_values(|v: Vec<ClassEntry>| entry_views(v@))
}

/// One step of the staging copy. Paths are component lists relative to the
/// library root and the staging root alike: every file is copied to the
/// same relative location it was found at.
#[derive(Debug, PartialEq, Eq)]
pub enum CopyAction {
    CreateDir(Vec<String>),
    CopyFile(Vec<String>),
}

/// Mathematical value of a [`CopyAction`].
#[verifier::ext_equal]
pub ghost enum CopyActionV {
    CreateDir(Seq<Seq<char>>),
    CopyFile(Seq<Seq<char>>),
}

impl View for CopyAction {
    type V = CopyActionV;

    open spec fn view(&self) -> CopyActionV {
        match self {
            CopyAction::CreateDir(p) => CopyActionV::CreateDir(str_views(p@)),
            CopyAction::CopyFile(p) => CopyActionV::CopyFile(str_views(p@)),
        }
    }
}

/// The sub-entries of an entry: the animation folder's listing, or nothing
/// for a plain file.
pub open spec fn folder_subs(k: EntryKindV) -> Seq<VariantEntryV> {
    match k {
        EntryKindV::File => Seq::empty(),
        EntryKindV::Folder(subs) => subs,
    }
}

/// Whether an entry hides a directory where only flat files may be.
pub open spec fn entry_has_nested(e: ClassEntryV) -> bool {
    exists|j: int| 0 <= j < folder_subs(e.kind).len() && (#[trigger] folder_subs(e.kind)[j]).is_dir
}

/// Whether any entry of the listing hides a nested directory.
pub open spec fn listing_has_nested(entries: Seq<ClassEntryV>) -> bool {
    exists|i: int| 0 <= i < entries.len() && entry_has_nested(#[trigger] entries[i])
}

/// The copies of one animation folder: one file copy per sub-entry.
pub open spec fn variant_file_actions(
    class: Seq<char>,
    anim: Seq<char>,
    subs: Seq<VariantEntryV>,
) -> Seq<CopyActionV>
    decreases subs.len(),
{
    if subs.len() == 0 {
        Seq::empty()
    } else {
        variant_file_actions(class, anim, subs.drop_last()).push(
            CopyActionV::CopyFile(seq![class, anim, subs.last().name]),
        )
    }
}

/// The actions of one direct entry of a class folder.
pub open spec fn entry_actions(class: Seq<char>, e: ClassEntryV) -> Seq<CopyActionV> {
    match e.kind {
        EntryKindV::File => seq![CopyActionV::CopyFile(seq![class, e.name])],
        EntryKindV::Folder(subs) => seq![CopyActionV::CreateDir(seq![class, e.name])]
            + variant_file_actions(class, e.name, subs),
    }
}

/// The actions of a class folder listing, in listing order.
pub open spec fn entries_actions(class: Seq<char>, entries: Seq<ClassEntryV>) -> Seq<CopyActionV>
    decreases entries.len(),
{
    if entries.len() == 0 {
        Seq::empty()
    } else {
        entries_actions(class, entries.drop_last()) + entry_actions(class, entries.last())
    }
}

/// The whole plan of one class: its folder, then its entries' actions.
pub open spec fn class_plan(class: Seq<char>, entries: Seq<ClassEntryV>) -> Seq<CopyActionV> {
    seq![CopyActionV::CreateDir(seq![class])] + entries_actions(class, entries)
}

/// The staging plan of the selected classes, in catalog order.
pub open spec fn full_plan(w: Seq<ClassAnimationsV>, lv: Seq<Seq<ClassEntryV>>) -> Seq<CopyActionV>
    decreases w.len(),
{
    if w.len() == 0 || lv.len() == 0 {
        Seq::empty()
    } else {
        full_plan(w.drop_last(), lv.drop_last()) + class_plan(
            w.last().class.dir_name(),
            lv.last(),
        )
    }
}

/// `p` names a directory found inside some listed animation folder.
pub open spec fn names_nested_dir(
    w: Seq<ClassAnimationsV>,
    lv: Seq<Seq<ClassEntryV>>,
    p: Seq<Seq<char>>,
) -> bool {
    exists|t: int, i: int, j: int| {
        &&& 0 <= t < lv.len() && t < w.len()
        &&& 0 <= i < lv[t].len()
        &&& 0 <= j < folder_subs(lv[t][i].kind).len()
        &&& (#[trigger] folder_subs(lv[t][i].kind)[j]).is_dir
        &&& p == seq![
            w[t].class.dir_name(),
            lv[t][i].name,
            folder_subs(lv[t][i].kind)[j].name,
        ]
    }
}

impl Sca {
    /// The staging plan: for each selected class, in order, create its
    /// folder, copy its direct files, and mirror each animation folder with
    /// its flat files. `listings` holds one listing per selected class, in
    /// selection order. Fails with `UnexpectedNesting` exactly when some
    /// animation folder contains a directory, naming one such directory.
    pub fn copy_sca(&self, listings: &Vec<Vec<ClassEntry>>) -> (r: Result<
        Vec<CopyAction>,
        ScaError,
    >)
        requires
            listings@.len() == selected_classes(self@).len(),
        ensures
            match r {
                Ok(plan) => {
                    &&& forall|u: int| 0 <= u < listings@.len() ==> !listing_has_nested(
                        #[trigger] listings_views(listings@)[u],
                    )
                    &&& plan@.map_values(|x: CopyAction| x@) == full_plan(
                        selected_classes(self@),
                        listings_views(listings@),
                    )
                },
                Err(e) => {
                    &&& e matches ScaError::UnexpectedNesting(p) && names_nested_dir(
                        selected_classes(self@),
                        listings_views(listings@),
                        str_views(p@),
                    )
                    &&& exists|u: int| 0 <= u < listings@.len() && listing_has_nested(
                        #[trigger] listings_views(listings@)[u],
                    )
                },
            },
    {
        let sel: Vec<&ClassAnimations> = self.get_selected_classes();
        let ghost w = selected_classes(self@);
        let ghost lv = listings_views(listings@);
        let n: usize = sel.len();
        let mut out: Vec<CopyAction> = Vec::new();
        let mut t: usize = 0;
        while t < n
            invariant
                sel@.map_values(|c: &ClassAnimations| c@) == w,
                w == selected_classes(self@),
                lv == listings_views(listings@),
                n == w.len(),
                n == sel@.len(),
                listings@.len() == n,
                lv.len() == n,
                t <= n,
                out@.map_values(|x: CopyAction| x@) =~= full_plan(w.take(t as int), lv.take(t as int)),
                forall|u: int| 0 <= u < t ==> !listing_has_nested(#[trigger] lv[u]),
            decreases n - t,
        {
            let cls: &ClassAnimations = sel[t];
            let class_str: String = cls.class.to_string();
            let ghost cname = w[t as int].class.dir_name();
            proof {
                assert(cls@ == w[t as int]);
                assert(class_str@ == cname);
                assert(lv[t as int] == entry_views(listings@[t as int]@));
            }
            let ghost ev = lv[t as int];
            let dir_path: Vec<String> = vec![class_str.clone()];
            let ghost dp = dir_path@;
            let dir_action: CopyAction = CopyAction::CreateDir(dir_path);
            let ghost da = dir_action;
            let ghost out0 = out@;
            out.push(dir_action);
            proof {
                assert(str_views(dp) =~= seq![cname]);
                assert(da@ == CopyActionV::CreateDir(seq![cname]));
                out0.lemma_push_map_commute(|x: CopyAction| x@, da);
                assert(out@.map_values(|x: CopyAction| x@) =~= full_plan(
                    w.take(t as int),
                    lv.take(t as int),
                ) + seq![CopyActionV::CreateDir(seq![cname])] + entries_actions(cname, ev.take(0)));
            }
            let listing: &Vec<ClassEntry> = &listings[t];
            let m: usize = listing.len();
            let mut i: usize = 0;
            while i < m
                invariant
                    w == selected_classes(self@),
                    lv == listings_views(listings@),
                    cname == w[t as int].class.dir_name(),
                    t < n,
                    n == w.len(),
                    n == listings@.len(),
                    lv.len() == n,
                    *listing == listings@[t as int],
                    ev == lv[t as int],
                    ev == entry_views(listing@),
                    m == listing@.len(),
                    ev.len() == m,
                    class_str@ == cname,
                    i <= m,
                    out@.map_values(|x: CopyAction| x@) =~= full_plan(
                        w.take(t as int),
                        lv.take(t as int),
                    ) + seq![CopyActionV::CreateDir(seq![cname])] + entries_actions(
                        cname,
                        ev.take(i as int),
                    ),
                    forall|u: int| 0 <= u < t ==> !listing_has_nested(#[trigger] lv[u]),
                    forall|q: int| 0 <= q < i ==> !entry_has_nested(#[trigger] ev[q]),
                decreases m - i,
            {
                let entry: &ClassEntry = &listing[i];
                proof {
                    assert(ev[i as int] == listing@[i as int]@);
                    assert(ev.take(i + 1).drop_last() =~= ev.take(i as int));
                    assert(ev.take(i + 1).last() == ev[i as int]);
                }
                match &entry.kind {
                    EntryKind::File => {
                        let file_path: Vec<String> = vec![class_str.clone(), entry.name.clone()];
                        let ghost fp = file_path@;
                        let file_action: CopyAction = CopyAction::CopyFile(file_path);
                        let ghost fa = file_action;
                        let ghost out1 = out@;
                        out.push(file_action);
                        proof {
                            assert(str_views(fp) =~= seq![cname, ev[i as int].name]);
                            assert(fa@ == CopyActionV::CopyFile(seq![cname, ev[i as int].name]));
                            assert(entry_actions(cname, ev[i as int]) =~= seq![fa@]);
                            out1.lemma_push_map_commute(|x: CopyAction| x@, fa);
                            assert(entries_actions(cname, ev.take(i + 1)) =~= entries_actions(
                                cname,
                                ev.take(i as int),
                            ) + entry_actions(cname, ev[i as int]));
                            assert(out@.map_values(|x: CopyAction| x@) =~= full_plan(
                                w.take(t as int),
                                lv.take(t as int),
                            ) + seq![CopyActionV::CreateDir(seq![cname])] + entries_actions(
                                cname,
                                ev.take(i + 1),
                            ));
                            assert(!entry_has_nested(ev[i as int]));
                        }
                    },
                    EntryKind::Folder(subs) => {
                        let ghost sv = folder_subs(ev[i as int].kind);
                        let ghost ename = ev[i as int].name;
                        proof {
                            assert(sv == subs@.map_values(|e: VariantEntry| e@));
                        }
                        let anim_path: Vec<String> = vec![class_str.clone(), entry.name.clone()];
                        let ghost ap = anim_path@;
                        let anim_action: CopyAction = CopyAction::CreateDir(anim_path);
                        let ghost aa = anim_action;
                        let ghost out1 = out@;
                        out.push(anim_action);
                        proof {
                            assert(str_views(ap) =~= seq![cname, ename]);
                            assert(aa@ == CopyActionV::CreateDir(seq![cname, ename]));
                            out1.lemma_push_map_commute(|x: CopyAction| x@, aa);
                        }
                        let s_count: usize = subs.len();
                        let mut j: usize = 0;
                        while j < s_count
                            invariant
                                sv == subs@.map_values(|e: VariantEntry| e@),
                                s_count == subs@.len(),
                                sv.len() == s_count,
                                class_str@ == cname,
                                entry@.name == ename,
                                *entry == listing@[i as int],
                                ev == entry_views(listing@),
                                i < m,
                                m == listing@.len(),
                                j <= s_count,
                                lv == listings_views(listings@),
                                cname == w[t as int].class.dir_name(),
                                t < n,
                                n == w.len(),
                                n == listings@.len(),
                                lv.len() == n,
                                ev == lv[t as int],
                                sv == folder_subs(ev[i as int].kind),
                                w == selected_classes(self@),
                                out@.map_values(|x: CopyAction| x@) =~= full_plan(
                                    w.take(t as int),
                                    lv.take(t as int),
                                ) + seq![CopyActionV::CreateDir(seq![cname])] + entries_actions(
                                    cname,
                                    ev.take(i as int),
                                ) + seq![CopyActionV::CreateDir(seq![cname, ename])]
                                    + variant_file_actions(cname, ename, sv.take(j as int)),
                                forall|q: int| 0 <= q < j ==> !(#[trigger] sv[q]).is_dir,
                            decreases s_count - j,
                        {
                            let sub: &VariantEntry = &subs[j];
                            proof {
                                assert(sv[j as int] == subs@[j as int]@);
                                assert(sv.take(j + 1).drop_last() =~= sv.take(j as int));
                                assert(sv.take(j + 1).last() == sv[j as int]);
                            }
                            if sub.is_dir {
                                let path: Vec<String> = vec![
                                    class_str.clone(),
                                    entry.name.clone(),
                                    sub.name.clone(),
                                ];
                                proof {
                                    assert(str_views(path@) =~= seq![cname, ename, sv[j as int].name]);
                                    assert(folder_subs(lv[t as int][i as int].kind)[j as int].is_dir);
                                    assert(names_nested_dir(w, lv, str_views(path@)));
                                    assert(entry_has_nested(ev[i as int]));
                                    assert(listing_has_nested(lv[t as int]));
                                }
                                return Err(ScaError::UnexpectedNesting(path));
                            }
                            let file_path: Vec<String> = vec![
                                class_str.clone(),
                                entry.name.clone(),
                                sub.name.clone(),
                            ];
                            let ghost fp = file_path@;
                            let file_action: CopyAction = CopyAction::CopyFile(file_path);
                            let ghost fa = file_action;
                            let ghost out2 = out@;
                            out.push(file_action);
                            proof {
                                assert(str_views(fp) =~= seq![
                                    cname,
                                    ename,
                                    sv[j as int].name,
                                ]);
                                assert(fa@ == CopyActionV::CopyFile(seq![
                                    cname,
                                    ename,
                                    sv[j as int].name,
                                ]));
                                out2.lemma_push_map_commute(|x: CopyAction| x@, fa);
                                assert(variant_file_actions(cname, ename, sv.take(j + 1))
                                    =~= variant_file_actions(cname, ename, sv.take(j as int)).push(
                                    fa@,
                                ));
                                assert(out@.map_values(|x: CopyAction| x@) =~= full_plan(
                                    w.take(t as int),
                                    lv.take(t as int),
                                ) + seq![CopyActionV::CreateDir(seq![cname])] + entries_actions(
                                    cname,
                                    ev.take(i as int),
                                ) + seq![CopyActionV::CreateDir(seq![cname, ename])]
                                    + variant_file_actions(cname, ename, sv.take(j + 1)));
                            }
                            j = j + 1;
                        }
                        proof {
                            assert(sv.take(s_count as int) =~= sv);
                            assert(entry_actions(cname, ev[i as int]) =~= seq![
                                CopyActionV::CreateDir(seq![cname, ename]),
                            ] + variant_file_actions(cname, ename, sv));
                            assert(entries_actions(cname, ev.take(i + 1)) =~= entries_actions(
                                cname,
                                ev.take(i as int),
                            ) + entry_actions(cname, ev[i as int]));
                            assert(out@.map_values(|x: CopyAction| x@) =~= full_plan(
                                w.take(t as int),
                                lv.take(t as int),
                            ) + seq![CopyActionV::CreateDir(seq![cname])] + entries_actions(
                                cname,
                                ev.take(i + 1),
                            ));
                            assert(!entry_has_nested(ev[i as int])) by {
                                if entry_has_nested(ev[i as int]) {
                                    let jw = choose|jw: int|
                                        0 <= jw < folder_subs(ev[i as int].kind).len()
                                        && (#[trigger] folder_subs(ev[i as int].kind)[jw]).is_dir;
                                    assert(!sv[jw].is_dir);
                                }
                            }
                        }
                    },
                }
                i = i + 1;
            }
            proof {
                assert(ev.take(m as int) =~= ev);
                assert(w.take(t + 1).drop_last() =~= w.take(t as int));
                assert(lv.take(t + 1).drop_last() =~= lv.take(t as int));
                assert(w.take(t + 1).last() == w[t as int]);
                assert(lv.take(t + 1).last() == lv[t as int]);
                assert(full_plan(w.take(t + 1), lv.take(t + 1)) =~= full_plan(
                    w.take(t as int),
                    lv.take(t as int),
                ) + class_plan(cname, ev));
                assert(out@.map_values(|x: CopyAction| x@) =~= full_plan(w.take(t + 1), lv.take(
                    t + 1,
                )));
                assert(!listing_has_nested(lv[t as int])) by {
                    if listing_has_nested(lv[t as int]) {
                        let iw = choose|iw: int|
                            0 <= iw < lv[t as int].len() && entry_has_nested(
                                #[trigger] lv[t as int][iw],
                            );
                        assert(!entry_has_nested(ev[iw]));
                    }
                }
            }
            t = t + 1;
        }
        proof {
            assert(w.take(n as int) =~= w);
            assert(lv.take(n as int) =~= lv);
        }
        Ok(out)
    }

    /// Decides whether the library layout is usable: the root must be a
    /// directory and must hold one folder per class. `class_present` states,
    /// for each class in declaration order, whether its folder is a
    /// directory under the root.
    pub fn check_folders(root_is_dir: bool, class_present: &Vec<bool>) -> (r: Result<
        (),
        ScaError,
    >)
        requires
            class_present@.len() == class_order().len(),
        ensures
            match r {
                Ok(()) => root_is_dir && forall|i: int|
                    0 <= i < class_order().len() ==> #[trigger] class_present@[i],
                Err(e) => {
                    ||| (!root_is_dir && e == ScaError::MissingLibraryRoot)
                    ||| (root_is_dir && exists|i: int| {
                        &&& 0 <= i < class_order().len()
                        &&& !(#[trigger] class_present@[i])
                        &&& (forall|k: int| 0 <= k < i ==> #[trigger] class_present@[k])
                        &&& e == ScaError::MissingCategoryFolder(class_order()[i])
                    })
                },
            },
    {
        if !root_is_dir {
            return Err(ScaError::MissingLibraryRoot);
        }
        let classes: Vec<Class> = crate::class::all_classes();
        let n: usize = class_present.len();
        let mut i: usize = 0;
        while i < n
            invariant
                root_is_dir,
                classes@ == class_order(),
                n == class_present@.len(),
                n == class_order().len(),
                i <= n,
                forall|k: int| 0 <= k < i ==> #[trigger] class_present@[k],
            decreases n - i,
        {
            if !class_present[i] {
                let missing: Class = classes[i];
                proof {
                    let ghost ii = i as int;
                    assert(!class_present@[ii]);
                    assert(missing == class_order()[ii]);
                    assert(exists|q: int| {
                        &&& 0 <= q < class_order().len()
                        &&& !(#[trigger] class_present@[q])
                        &&& (forall|k: int| 0 <= k < q ==> #[trigger] class_present@[k])
                        &&& ScaError::MissingCategoryFolder(missing)
                            == ScaError::MissingCategoryFolder(class_order()[q])
                    });
                }
                return Err(ScaError::MissingCategoryFolder(missing));
            }
            i = i + 1;
        }
        Ok(())
    }
}

} // verus!
