//! The build-script patcher and the location of build scripts inside the
//! staging area.
//!
//! A staged variant folder holds exactly one build script, recognised by its
//! `.qc` extension; patching prepends one directive line that carries the
//! variant's transform and leaves the original text untouched. The planners
//! here name which scripts are to be patched and where every script to be
//! compiled lies; the caller reads, rewrites and compiles the named files.

use vstd::prelude::*;
use vstd::string::*;
use crate::catalog::Animation;
use crate::catalog::AnimationV;
use crate::catalog::ClassAnimations;
use crate::catalog::ClassAnimationsV;
use crate::catalog::Sca;
use crate::catalog::selected_anims;
use crate::catalog::selected_classes;
use crate::class::Class;
use crate::error::ScaError;
use crate::origin::Origin;
use crate::origin::OriginV;

verus! {

/// The views of a sequence of strings.
pub open spec fn str_views(s: Seq<String>) -> Seq<Seq<char>> {
    s.map_values(|x: String| x@)
}

/// The directive line written above a script for the given transform.
pub open spec fn directive_of(o: OriginV) -> Seq<char> {
    "$origin "@ + o.x + " "@ + o.y + " "@ + o.z + " "@ + o.z_rot + "\n"@
}

/// A patched script: the directive line followed by the unchanged original
/// text.
pub open spec fn patched(o: OriginV, content: Seq<char>) -> Seq<char> {
    directive_of(o) + content
}

/// Builds the new text of a variant's build script.
pub fn patched_content(origin: &Origin, content: &str) -> (r: String)
    ensures
        r@ == patched(origin@, content@),
{
    let mut s: String = "$origin ".to_owned();
    s.append(origin.x.as_str());
    s.append(" ");
    s.append(origin.y.as_str());
    s.append(" ");
    s.append(origin.z.as_str());
    s.append(" ");
    s.append(origin.z_rot.as_str());
    s.append("\n");
    s.append(content);
    proof {
        assert(s@ =~= patched(origin@, content@));
    }
    s
}

/// A file name with the build-script extension.
pub open spec fn is_qc_name(n: Seq<char>) -> bool {
    n.len() >= 4 && n.subrange(n.len() - 3, n.len() as int) == ".qc"@
}

/// Index of the first build-script name in `names`, or `-1` when there is
/// none; the lookup deliberately takes the first match.
pub open spec fn first_qc_index(names: Seq<Seq<char>>) -> int
    decreases names.len(),
{
    if names.len() == 0 {
        -1
    } else if is_qc_name(names[0]) {
        0
    } else {
        let rest = first_qc_index(names.drop_first());
        if rest < 0 {
            -1
        } else {
            rest + 1
        }
    }
}

/// Whether any name in the listing has the build-script extension.
pub open spec fn has_qc(names: Seq<Seq<char>>) -> bool {
    first_qc_index(names) >= 0
}

/// A scan that saw no build-script name in the first `i` entries pins
/// `first_qc_index` down: it is `i` when entry `i` matches, and `-1` when
/// the whole listing was scanned.
proof fn lemma_first_qc_from_prefix(names: Seq<Seq<char>>, i: int)
    requires
        0 <= i <= names.len(),
        forall|k: int| 0 <= k < i ==> !is_qc_name(#[trigger] names[k]),
    ensures
        i < names.len() && is_qc_name(names[i]) ==> first_qc_index(names) == i,
        i == names.len() ==> first_qc_index(names) == -1,
    decreases i,
{
    if i == 0 {
    } else {
        assert(!is_qc_name(names[0]));
        assert forall|k: int| 0 <= k < i - 1 implies !is_qc_name(
            #[trigger] names.drop_first()[k],
        ) by {
            assert(names.drop_first()[k] == names[k + 1]);
        }
        lemma_first_qc_from_prefix(names.drop_first(), i - 1);
        if i < names.len() {
            assert(names.drop_first()[i - 1] == names[i]);
        }
    }
}

/// Whether this file name has the build-script extension.
pub fn name_is_qc(name: &String) -> (r: bool)
    ensures
        r == is_qc_name(name@),
{
    let s: &str = name.as_str();
    let n: usize = s.unicode_len();
    if n < 4 {
        return false;
    }
    let c1: char = s.get_char(n - 3);
    let c2: char = s.get_char(n - 2);
    let c3: char = s.get_char(n - 1);
    let ok: bool = c1 == '.' && c2 == 'q' && c3 == 'c';
    proof {
        reveal_strlit(".qc");
        let tail = name@.subrange(n - 3, n as int);
        if ok {
            assert(tail =~= ".qc"@);
        } else {
            if tail == ".qc"@ {
                assert(tail[0] == '.' && tail[1] == 'q' && tail[2] == 'c');
                assert(false);
            }
        }
    }
    ok
}

/// The first build-script name in the listing, or `ScriptNotFound` when the
/// listing holds none.
pub fn find_qc(names: &Vec<String>) -> (r: Result<String, ScaError>)
    ensures
        match r {
            Ok(n) => has_qc(str_views(names@)) && n@ == str_views(names@)[first_qc_index(
                str_views(names@),
            )],
            Err(e) => e == ScaError::ScriptNotFound && !has_qc(str_views(names@)),
        },
{
    let n: usize = names.len();
    let mut i: usize = 0;
    while i < n
        invariant
            n == names@.len(),
            i <= n,
            forall|k: int| 0 <= k < i ==> !is_qc_name(#[trigger] str_views(names@)[k]),
        decreases n - i,
    {
        proof {
            assert(str_views(names@)[i as int] == names@[i as int]@);
        }
        if name_is_qc(&names[i]) {
            proof {
                lemma_first_qc_from_prefix(str_views(names@), i as int);
            }
            return Ok(names[i].clone());
        }
        i = i + 1;
    }
    proof {
        lemma_first_qc_from_prefix(str_views(names@), n as int);
    }
    Err(ScaError::ScriptNotFound)
}

/// An exact copy of a list of path components.
fn clone_names(v: &Vec<String>) -> (r: Vec<String>)
    ensures
        r@ == v@,
{
    let n: usize = v.len();
    let mut r: Vec<String> = Vec::new();
    let mut i: usize = 0;
    while i < n
        invariant
            n == v@.len(),
            i <= n,
            r@.len() == i,
            forall|k: int| 0 <= k < i ==> #[trigger] r@[k] == v@[k],
        decreases n - i,
    {
        r.push(v[i].clone());
        i = i + 1;
    }
    proof {
        assert(r@ =~= v@);
    }
    r
}

/// For each listed folder, the path of its single build script: the folder's
/// path components with the first build-script name appended. Fails with
/// `ScriptNotFound` exactly when some listed folder holds no build script.
pub fn qc_paths(prefixes: &Vec<Vec<String>>, listings: &Vec<Vec<String>>) -> (r: Result<
    Vec<Vec<String>>,
    ScaError,
>)
    requires
        prefixes@.len() == listings@.len(),
    ensures
        match r {
            Ok(paths) => {
                &&& paths@.len() == prefixes@.len()
                &&& forall|t: int| 0 <= t < listings@.len() ==> has_qc(
                    str_views((#[trigger] listings@[t])@),
                )
                &&& forall|t: int| 0 <= t < prefixes@.len() ==> str_views((#[trigger] paths@[t])@)
                    == str_views(prefixes@[t]@).push(
                    str_views(listings@[t]@)[first_qc_index(str_views(listings@[t]@))],
                )
            },
            Err(e) => {
                &&& e == ScaError::ScriptNotFound
                &&& exists|t: int| 0 <= t < listings@.len() && !has_qc(
                    str_views((#[trigger] listings@[t])@),
                )
            },
        },
{
    let n: usize = prefixes.len();
    let mut out: Vec<Vec<String>> = Vec::new();
    let mut t: usize = 0;
    while t < n
        invariant
            n == prefixes@.len(),
            prefixes@.len() == listings@.len(),
            t <= n,
            out@.len() == t,
            forall|u: int| 0 <= u < t ==> has_qc(str_views((#[trigger] listings@[u])@)),
            forall|u: int| 0 <= u < t ==> str_views((#[trigger] out@[u])@) == str_views(
                prefixes@[u]@,
            ).push(str_views(listings@[u]@)[first_qc_index(str_views(listings@[u]@))]),
        decreases n - t,
    {
        match find_qc(&listings[t]) {
            Ok(name) => {
                let mut path: Vec<String> = clone_names(&prefixes[t]);
                let ghost name_view = name@;
                path.push(name);
                proof {
                    assert(str_views(path@) =~= str_views(prefixes@[t as int]@).push(name_view));
                }
                let ghost out0 = out@;
                let ghost path0 = path@;
                out.push(path);
                proof {
                    assert forall|u: int| 0 <= u < t + 1 implies str_views(
                        (#[trigger] out@[u])@,
                    ) == str_views(prefixes@[u]@).push(
                        str_views(listings@[u]@)[first_qc_index(str_views(listings@[u]@))],
                    ) by {
                        if u == t as int {
                            assert(out@[u]@ == path0);
                        } else {
                            assert(out@[u] == out0[u]);
                            assert(str_views(out0[u]@) == str_views(prefixes@[u]@).push(
                                str_views(listings@[u]@)[first_qc_index(str_views(listings@[u]@))],
                            ));
                        }
                    }
                }
            },
            Err(e) => {
                return Err(e);
            },
        }
        t = t + 1;
    }
    Ok(out)
}

/// One patch to perform: the class and variant whose staged build script
/// gets the directive line for the given transform.
pub struct PatchJob {
    pub class: Class,
    pub animation: String,
    pub origin: Origin,
}

/// Mathematical value of a [`PatchJob`].
#[verifier::ext_equal]
pub ghost struct PatchJobV {
    pub class: Class,
    pub animation: Seq<char>,
    pub origin: OriginV,
}

impl View for PatchJob {
    type V = PatchJobV;

    open spec fn view(&self) -> PatchJobV {
        PatchJobV { class: self.class, animation: self.animation@, origin: self.origin@ }
    }
}

/// The patch jobs of one class: one per selected variant, in order.
pub open spec fn folder_jobs(c: ClassAnimationsV) -> Seq<PatchJobV> {
    selected_anims(c.animations).map_values(
        |a: AnimationV| (PatchJobV { class: c.class, animation: a.name, origin: a.origin }),
    )
}

/// The patch jobs of a list of class folders, concatenated in order.
pub open spec fn jobs_of_folders(w: Seq<ClassAnimationsV>) -> Seq<PatchJobV>
    decreases w.len(),
{
    if w.len() == 0 {
        Seq::empty()
    } else {
        jobs_of_folders(w.drop_last()) + folder_jobs(w.last())
    }
}

/// All patches a catalog calls for: every selected variant of every selected
/// class, classes in catalog order, variants in folder order.
pub open spec fn patch_jobs_of(v: Seq<ClassAnimationsV>) -> Seq<PatchJobV> {
    jobs_of_folders(selected_classes(v))
}

/// One staged animation folder, named by its class and variant.
pub struct AnimFolder {
    pub class: Class,
    pub animation: String,
}

/// Mathematical value of an [`AnimFolder`].
#[verifier::ext_equal]
pub ghost struct AnimFolderV {
    pub class: Class,
    pub animation: Seq<char>,
}

impl View for AnimFolder {
    type V = AnimFolderV;

    open spec fn view(&self) -> AnimFolderV {
        AnimFolderV { class: self.class, animation: self.animation@ }
    }
}

/// The animation folders of one class: its selected variants, or all of
/// them.
pub open spec fn folder_anim_refs(c: ClassAnimationsV, selected_only: bool) -> Seq<AnimFolderV> {
    (if selected_only {
        selected_anims(c.animations)
    } else {
        c.animations
    }).map_values(|a: AnimationV| (AnimFolderV { class: c.class, animation: a.name }))
}

/// The animation folders of a list of class folders, concatenated in order.
pub open spec fn anim_refs_of_folders(w: Seq<ClassAnimationsV>, selected_only: bool) -> Seq<
    AnimFolderV,
>
    decreases w.len(),
{
    if w.len() == 0 {
        Seq::empty()
    } else {
        anim_refs_of_folders(w.drop_last(), selected_only) + folder_anim_refs(
            w.last(),
            selected_only,
        )
    }
}

/// The staged animation folders a catalog names: for each selected class,
/// its selected variants (or all of its variants), in order.
pub open spec fn anim_folder_list(v: Seq<ClassAnimationsV>, selected_only: bool) -> Seq<
    AnimFolderV,
> {
    anim_refs_of_folders(selected_classes(v), selected_only)
}

impl Sca {
    /// The patches to apply: one job per selected variant of each selected
    /// class, carrying the variant's transform.
    pub fn append_origins(&self) -> (r: Vec<PatchJob>)
        ensures
            r@.map_values(|x: PatchJob| x@) == patch_jobs_of(self@),
    {
        let sel: Vec<&ClassAnimations> = self.get_selected_classes();
        let ghost w = selected_classes(self@);
        let n: usize = sel.len();
        let mut out: Vec<PatchJob> = Vec::new();
        let mut i: usize = 0;
        while i < n
            invariant
                sel@.map_values(|c: &ClassAnimations| c@) == w,
                w == selected_classes(self@),
                n == sel@.len(),
                i <= n,
                out@.map_values(|x: PatchJob| x@) =~= jobs_of_folders(w.take(i as int)),
            decreases n - i,
        {
            let folder: &ClassAnimations = sel[i];
            proof {
                assert(folder@ == w[i as int]);
                assert(w.take(i + 1).drop_last() =~= w.take(i as int));
                assert(w.take(i + 1).last() == w[i as int]);
            }
            let anims: Vec<&Animation> = folder.get_selected_animations();
            let ghost fa = selected_anims(folder@.animations);
            let m: usize = anims.len();
            let mut j: usize = 0;
            while j < m
                invariant
                    anims@.map_values(|a: &Animation| a@) == fa,
                    fa == selected_anims(folder@.animations),
                    m == anims@.len(),
                    j <= m,
                    out@.map_values(|x: PatchJob| x@) =~= jobs_of_folders(w.take(i as int))
                        + folder_jobs(folder@).take(j as int),
                decreases m - j,
            {
                let a: &Animation = anims[j];
                proof {
                    assert(a@ == fa[j as int]);
                    assert(folder_jobs(folder@)[j as int] == (PatchJobV {
                        class: folder@.class,
                        animation: a@.name,
                        origin: a@.origin,
                    }));
                    assert(folder_jobs(folder@).take(j + 1) =~= folder_jobs(folder@).take(
                        j as int,
                    ).push(folder_jobs(folder@)[j as int]));
                }
                let job: PatchJob = PatchJob {
                    class: folder.class,
                    animation: a.name.clone(),
                    origin: a.origin.duplicate(),
                };
                let ghost out0 = out@;
                let ghost j0 = job;
                out.push(job);
                proof {
                    out0.lemma_push_map_commute(|x: PatchJob| x@, j0);
                    assert(out@.map_values(|x: PatchJob| x@) == out0.map_values(
                        |x: PatchJob| x@,
                    ).push(j0@));
                    assert((jobs_of_folders(w.take(i as int)) + folder_jobs(folder@).take(
                        j as int,
                    )).push(j0@) =~= jobs_of_folders(w.take(i as int)) + folder_jobs(folder@).take(
                        j + 1,
                    ));
                }
                j = j + 1;
            }
            proof {
                assert(folder_jobs(folder@).take(m as int) =~= folder_jobs(folder@));
                assert(out@.map_values(|x: PatchJob| x@) =~= jobs_of_folders(w.take(i + 1)));
            }
            i = i + 1;
        }
        proof {
            assert(w.take(n as int) =~= w);
        }
        out
    }

    /// The path of each selected class's aggregate build script inside the
    /// staging area. `listings` holds, for each selected class in selection
    /// order, the file names of its staged class folder; each path is the
    /// class folder followed by the first build-script name found in it.
    pub fn get_selected_class_qcs(&self, listings: &Vec<Vec<String>>) -> (r: Result<
        Vec<Vec<String>>,
        ScaError,
    >)
        requires
            listings@.len() == selected_classes(self@).len(),
        ensures
            match r {
                Ok(paths) => {
                    &&& paths@.len() == selected_classes(self@).len()
                    &&& forall|t: int| 0 <= t < listings@.len() ==> has_qc(
                        str_views((#[trigger] listings@[t])@),
                    )
                    &&& forall|t: int| 0 <= t < paths@.len() ==> str_views((#[trigger] paths@[t])@)
                        == seq![selected_classes(self@)[t].class.dir_name()].push(
                        str_views(listings@[t]@)[first_qc_index(str_views(listings@[t]@))],
                    )
                },
                Err(e) => {
                    &&& e == ScaError::ScriptNotFound
                    &&& exists|t: int| 0 <= t < listings@.len() && !has_qc(
                        str_views((#[trigger] listings@[t])@),
                    )
                },
            },
    {
        let sel: Vec<&ClassAnimations> = self.get_selected_classes();
        let ghost w = selected_classes(self@);
        let n: usize = sel.len();
        let mut prefixes: Vec<Vec<String>> = Vec::new();
        let mut t: usize = 0;
        while t < n
            invariant
                sel@.map_values(|c: &ClassAnimations| c@) == w,
                w == selected_classes(self@),
                n == sel@.len(),
                n == w.len(),
                t <= n,
                prefixes@.len() == t,
                forall|k: int| 0 <= k < t ==> str_views((#[trigger] prefixes@[k])@) == seq![
                    w[k].class.dir_name(),
                ],
            decreases n - t,
        {
            let cls: &ClassAnimations = sel[t];
            let p: Vec<String> = vec![cls.class.to_string()];
            proof {
                assert(cls@ == w[t as int]);
                assert(str_views(p@) =~= seq![w[t as int].class.dir_name()]);
            }
            prefixes.push(p);
            t = t + 1;
        }
        match qc_paths(&prefixes, listings) {
            Ok(paths) => {
                proof {
                    assert forall|u: int| 0 <= u < paths@.len() implies str_views(
                        (#[trigger] paths@[u])@,
                    ) == seq![w[u].class.dir_name()].push(
                        str_views(listings@[u]@)[first_qc_index(str_views(listings@[u]@))],
                    ) by {
                        assert(str_views(prefixes@[u]@) == seq![w[u].class.dir_name()]);
                    }
                }
                Ok(paths)
            },
            Err(e) => Err(e),
        }
    }

    /// The path of each staged per-animation build script: for each
    /// animation folder named by [`Sca::anim_folders`], in that order, the
    /// class and variant folder followed by the first build-script name in
    /// the folder's listing.
    pub fn get_temp_folder_qcs(&self, selected_only: bool, listings: &Vec<Vec<String>>) -> (r:
        Result<Vec<Vec<String>>, ScaError>)
        requires
            listings@.len() == anim_folder_list(self@, selected_only).len(),
        ensures
            match r {
                Ok(paths) => {
                    &&& paths@.len() == anim_folder_list(self@, selected_only).len()
                    &&& forall|t: int| 0 <= t < listings@.len() ==> has_qc(
                        str_views((#[trigger] listings@[t])@),
                    )
                    &&& forall|t: int| 0 <= t < paths@.len() ==> str_views((#[trigger] paths@[t])@)
                        == seq![
                        anim_folder_list(self@, selected_only)[t].class.dir_name(),
                        anim_folder_list(self@, selected_only)[t].animation,
                    ].push(str_views(listings@[t]@)[first_qc_index(str_views(listings@[t]@))])
                },
                Err(e) => {
                    &&& e == ScaError::ScriptNotFound
                    &&& exists|t: int| 0 <= t < listings@.len() && !has_qc(
                        str_views((#[trigger] listings@[t])@),
                    )
                },
            },
    {
        let folders: Vec<AnimFolder> = self.anim_folders(selected_only);
        let ghost fl = anim_folder_list(self@, selected_only);
        let n: usize = folders.len();
        let mut prefixes: Vec<Vec<String>> = Vec::new();
        let mut t: usize = 0;
        while t < n
            invariant
                folders@.map_values(|x: AnimFolder| x@) == fl,
                fl == anim_folder_list(self@, selected_only),
                n == folders@.len(),
                n == fl.len(),
                t <= n,
                prefixes@.len() == t,
                forall|k: int| 0 <= k < t ==> str_views((#[trigger] prefixes@[k])@) == seq![
                    fl[k].class.dir_name(),
                    fl[k].animation,
                ],
            decreases n - t,
        {
            let f: &AnimFolder = &folders[t];
            let p: Vec<String> = vec![f.class.to_string(), f.animation.clone()];
            proof {
                assert(f@ == fl[t as int]);
                assert(str_views(p@) =~= seq![fl[t as int].class.dir_name(), fl[t as int].animation]);
            }
            prefixes.push(p);
            t = t + 1;
        }
        match qc_paths(&prefixes, listings) {
            Ok(paths) => {
                proof {
                    assert forall|u: int| 0 <= u < paths@.len() implies str_views(
                        (#[trigger] paths@[u])@,
                    ) == seq![fl[u].class.dir_name(), fl[u].animation].push(
                        str_views(listings@[u]@)[first_qc_index(str_views(listings@[u]@))],
                    ) by {
                        assert(str_views(prefixes@[u]@) == seq![
                            fl[u].class.dir_name(),
                            fl[u].animation,
                        ]);
                    }
                }
                Ok(paths)
            },
            Err(e) => Err(e),
        }
    }

    /// The staged animation folders to work through: for each selected
    /// class, its selected variants when `selected_only` is set, otherwise
    /// all of its variants.
    pub fn anim_folders(&self, selected_only: bool) -> (r: Vec<AnimFolder>)
        ensures
            r@.map_values(|x: AnimFolder| x@) == anim_folder_list(self@, selected_only),
    {
        let sel: Vec<&ClassAnimations> = self.get_selected_classes();
        let ghost w = selected_classes(self@);
        let n: usize = sel.len();
        let mut out: Vec<AnimFolder> = Vec::new();
        let mut i: usize = 0;
        while i < n
            invariant
                sel@.map_values(|c: &ClassAnimations| c@) == w,
                w == selected_classes(self@),
                n == sel@.len(),
                i <= n,
                out@.map_values(|x: AnimFolder| x@) =~= anim_refs_of_folders(
                    w.take(i as int),
                    selected_only,
                ),
            decreases n - i,
        {
            let folder: &ClassAnimations = sel[i];
            proof {
                assert(folder@ == w[i as int]);
                assert(w.take(i + 1).drop_last() =~= w.take(i as int));
                assert(w.take(i + 1).last() == w[i as int]);
            }
            let ghost fa = if selected_only {
                selected_anims(folder@.animations)
            } else {
                folder@.animations
            };
            let anims: Vec<&Animation> = if selected_only {
                folder.get_selected_animations()
            } else {
                let mut all: Vec<&Animation> = Vec::new();
                let m0: usize = folder.animations.len();
                let mut j0: usize = 0;
                while j0 < m0
                    invariant
                        m0 == folder.animations@.len(),
                        j0 <= m0,
                        all@.map_values(|a: &Animation| a@) =~= folder@.animations.take(j0 as int),
                    decreases m0 - j0,
                {
                    proof {
                        assert(folder@.animations.take(j0 + 1).drop_last() =~= folder@.animations
                            .take(j0 as int));
                        assert(folder@.animations.take(j0 + 1).last() == folder@.animations[j0 as int]);
                    }
                    all.push(&folder.animations[j0]);
                    proof {
                        assert(all@.map_values(|a: &Animation| a@) =~= folder@.animations.take(
                            j0 + 1,
                        ));
                    }
                    j0 = j0 + 1;
                }
                proof {
                    assert(folder@.animations.take(m0 as int) =~= folder@.animations);
                }
                all
            };
            let m: usize = anims.len();
            let mut j: usize = 0;
            while j < m
                invariant
                    anims@.map_values(|a: &Animation| a@) == fa,
                    fa == (if selected_only {
                        selected_anims(folder@.animations)
                    } else {
                        folder@.animations
                    }),
                    m == anims@.len(),
                    j <= m,
                    out@.map_values(|x: AnimFolder| x@) =~= anim_refs_of_folders(
                        w.take(i as int),
                        selected_only,
                    ) + folder_anim_refs(folder@, selected_only).take(j as int),
                decreases m - j,
            {
                let a: &Animation = anims[j];
                proof {
                    assert(a@ == fa[j as int]);
                    assert(folder_anim_refs(folder@, selected_only)[j as int] == (AnimFolderV {
                        class: folder@.class,
                        animation: a@.name,
                    }));
                    assert(folder_anim_refs(folder@, selected_only).take(j + 1)
                        =~= folder_anim_refs(folder@, selected_only).take(j as int).push(
                        folder_anim_refs(folder@, selected_only)[j as int],
                    ));
                }
                let item: AnimFolder = AnimFolder { class: folder.class, animation: a.name.clone() };
                let ghost out0 = out@;
                let ghost i0 = item;
                out.push(item);
                proof {
                    out0.lemma_push_map_commute(|x: AnimFolder| x@, i0);
                    assert(out@.map_values(|x: AnimFolder| x@) == out0.map_values(
                        |x: AnimFolder| x@,
                    ).push(i0@));
                    assert((anim_refs_of_folders(w.take(i as int), selected_only)
                        + folder_anim_refs(folder@, selected_only).take(j as int)).push(i0@)
                        =~= anim_refs_of_folders(w.take(i as int), selected_only)
                        + folder_anim_refs(folder@, selected_only).take(j + 1));
                }
                j = j + 1;
            }
            proof {
                assert(folder_anim_refs(folder@, selected_only).take(m as int)
                    =~= folder_anim_refs(folder@, selected_only));
                assert(out@.map_values(|x: AnimFolder| x@) =~= anim_refs_of_folders(
                    w.take(i + 1),
                    selected_only,
                ));
            }
            i = i + 1;
        }
        proof {
            assert(w.take(n as int) =~= w);
        }
        out
    }
}

} // verus!
