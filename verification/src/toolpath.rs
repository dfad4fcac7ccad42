//! Derivation of tool and content paths from the program's install
//! location, and the external invocations built from them.
//!
//! The program is expected to sit at a fixed depth inside the game content
//! tree; every path here is a list of components derived from the folder the
//! caller found the running program in. The caller turns component lists
//! into real paths, checks existence where a check is called for, and
//! launches the processes these plans describe.

use vstd::prelude::*;
use crate::catalog::Sca;
use crate::error::ScaError;
use crate::patch::str_views;

verus! {

/// The components of the external compiler's path: three levels above the
/// program's folder, then `bin/studiomdl.exe`.
pub open spec fn studiomdl_path_of(exe: Seq<Seq<char>>) -> Seq<Seq<char>> {
    exe.take(exe.len() - 3).push("bin"@).push("studiomdl.exe"@)
}

/// The components of the game content root: two levels above the program's
/// folder.
pub open spec fn tf_path_of(exe: Seq<Seq<char>>) -> Seq<Seq<char>> {
    exe.take(exe.len() - 2)
}

/// The components of the template library root: the `SCA` folder beside the
/// program.
pub open spec fn sca_path_of(exe: Seq<Seq<char>>) -> Seq<Seq<char>> {
    exe.push("SCA"@)
}

/// An exact copy of the first `count` components of a path.
fn path_prefix(v: &Vec<String>, count: usize) -> (r: Vec<String>)
    requires
        count <= v@.len(),
    ensures
        r@.len() == count,
        str_views(r@) == str_views(v@).take(count as int),
{
    let mut r: Vec<String> = Vec::new();
    let mut i: usize = 0;
    while i < count
        invariant
            count <= v@.len(),
            i <= count,
            r@.len() == i,
            forall|k: int| 0 <= k < i ==> (#[trigger] r@[k])@ == v@[k]@,
        decreases count - i,
    {
        r.push(v[i].clone());
        i = i + 1;
    }
    proof {
        assert(str_views(r@) =~= str_views(v@).take(count as int));
    }
    r
}

/// The name of the staging root folder, created beside the program.
pub fn temp_folder_name() -> (r: String)
    ensures
        r@ == "__v_customizer_temp__"@,
{
    "__v_customizer_temp__".to_owned()
}

/// The packaging step: which executable to run, on which folder, and where
/// the archive it produces must be moved.
pub struct PackagePlan {
    pub vpk_exe: Vec<String>,
    pub target_folder: Vec<String>,
    pub archive_source: Vec<String>,
    pub archive_dest: Vec<String>,
}

/// The packager's path: the compiler's folder with `vpk.exe` as file name.
pub open spec fn vpk_path_of(studiomdl: Seq<Seq<char>>) -> Seq<Seq<char>> {
    studiomdl.take(studiomdl.len() - 1).push("vpk.exe"@)
}

/// The folder the packager is pointed at.
pub open spec fn package_target_of(tf: Seq<Seq<char>>) -> Seq<Seq<char>> {
    tf + seq!["models"@, "__TEMP"@, "0_ViewmodelCustomized"@]
}

/// Where the packager leaves its archive.
pub open spec fn archive_source_of(tf: Seq<Seq<char>>) -> Seq<Seq<char>> {
    tf + seq!["models"@, "__TEMP"@, "0_ViewmodelCustomized.vpk"@]
}

/// Where the archive must end up.
pub open spec fn archive_dest_of(tf: Seq<Seq<char>>) -> Seq<Seq<char>> {
    tf + seq!["custom"@, "0_ViewmodelCustomized.vpk"@]
}

impl Sca {
    /// Where the external compiler must be, and `ToolNotFound` when the
    /// caller found nothing there. `present` reports whether a file exists
    /// at the location [`Sca::studiomdl_path`] names.
    pub fn studiomdl_exe(exe_folder: &Vec<String>, present: bool) -> (r: Result<
        Vec<String>,
        ScaError,
    >)
        requires
            exe_folder@.len() >= 3,
        ensures
            match r {
                Ok(p) => present && str_views(p@) == studiomdl_path_of(str_views(exe_folder@)),
                Err(e) => !present && e == ScaError::ToolNotFound,
            },
    {
        if !present {
            return Err(ScaError::ToolNotFound);
        }
        Ok(Self::studiomdl_path(exe_folder))
    }

    /// The location the external compiler is looked for at.
    pub fn studiomdl_path(exe_folder: &Vec<String>) -> (r: Vec<String>)
        requires
            exe_folder@.len() >= 3,
        ensures
            str_views(r@) == studiomdl_path_of(str_views(exe_folder@)),
    {
        let mut r: Vec<String> = path_prefix(exe_folder, exe_folder.len() - 3);
        r.push("bin".to_owned());
        r.push("studiomdl.exe".to_owned());
        proof {
            assert(str_views(r@) =~= studiomdl_path_of(str_views(exe_folder@)));
        }
        r
    }

    /// Where the game content root must be, and `ContentRootNotFound` when
    /// the caller found nothing there. `present` reports whether a folder
    /// exists at the location [`Sca::tf_path`] names.
    pub fn tf_folder(exe_folder: &Vec<String>, present: bool) -> (r: Result<
        Vec<String>,
        ScaError,
    >)
        requires
            exe_folder@.len() >= 2,
        ensures
            match r {
                Ok(p) => present && str_views(p@) == tf_path_of(str_views(exe_folder@)),
                Err(e) => !present && e == ScaError::ContentRootNotFound,
            },
    {
        if !present {
            return Err(ScaError::ContentRootNotFound);
        }
        Ok(Self::tf_path(exe_folder))
    }

    /// The location the game content root is looked for at.
    pub fn tf_path(exe_folder: &Vec<String>) -> (r: Vec<String>)
        requires
            exe_folder@.len() >= 2,
        ensures
            str_views(r@) == tf_path_of(str_views(exe_folder@)),
    {
        let r: Vec<String> = path_prefix(exe_folder, exe_folder.len() - 2);
        proof {
            assert(str_views(r@) =~= tf_path_of(str_views(exe_folder@)));
        }
        r
    }

    /// The template library root: the `SCA` folder beside the program.
    pub fn sca_folder(exe_folder: &Vec<String>) -> (r: Vec<String>)
        ensures
            str_views(r@) == sca_path_of(str_views(exe_folder@)),
    {
        let mut r: Vec<String> = path_prefix(exe_folder, exe_folder.len());
        r.push("SCA".to_owned());
        proof {
            assert(str_views(exe_folder@).take(exe_folder@.len() as int) =~= str_views(
                exe_folder@,
            ));
            assert(str_views(r@) =~= sca_path_of(str_views(exe_folder@)));
        }
        r
    }

    /// The arguments of one compiler invocation: the fixed flags, the
    /// content root, and the script to compile, in the exact order the
    /// compiler is given them.
    pub fn compile(tf_folder: &String, qc_file: &String) -> (r: Vec<String>)
        ensures
            str_views(r@) == seq!["-game"@, tf_folder@, "-nop4"@, "-verbose"@, qc_file@],
    {
        let mut r: Vec<String> = Vec::new();
        r.push("-game".to_owned());
        r.push(tf_folder.clone());
        r.push("-nop4".to_owned());
        r.push("-verbose".to_owned());
        r.push(qc_file.clone());
        proof {
            assert(str_views(r@) =~= seq!["-game"@, tf_folder@, "-nop4"@, "-verbose"@, qc_file@]);
        }
        r
    }

    /// Plans the packaging step from the compiler's path and the content
    /// root. The caller runs the executable on the target folder, treats a
    /// non-zero exit as `CompilerExitedNonZero`, and reports
    /// `RelocateFailed` when the archive cannot be moved to its
    /// destination.
    pub fn convert_to_vpk(studiomdl: &Vec<String>, tf: &Vec<String>) -> (r: PackagePlan)
        requires
            studiomdl@.len() >= 1,
        ensures
            str_views(r.vpk_exe@) == vpk_path_of(str_views(studiomdl@)),
            str_views(r.target_folder@) == package_target_of(str_views(tf@)),
            str_views(r.archive_source@) == archive_source_of(str_views(tf@)),
            str_views(r.archive_dest@) == archive_dest_of(str_views(tf@)),
    {
        let mut vpk_exe: Vec<String> = path_prefix(studiomdl, studiomdl.len() - 1);
        vpk_exe.push("vpk.exe".to_owned());
        let mut target_folder: Vec<String> = path_prefix(tf, tf.len());
        target_folder.push("models".to_owned());
        target_folder.push("__TEMP".to_owned());
        target_folder.push("0_ViewmodelCustomized".to_owned());
        let mut archive_source: Vec<String> = path_prefix(tf, tf.len());
        archive_source.push("models".to_owned());
        archive_source.push("__TEMP".to_owned());
        archive_source.push("0_ViewmodelCustomized.vpk".to_owned());
        let mut archive_dest: Vec<String> = path_prefix(tf, tf.len());
        archive_dest.push("custom".to_owned());
        archive_dest.push("0_ViewmodelCustomized.vpk".to_owned());
        proof {
            assert(str_views(tf@).take(tf@.len() as int) =~= str_views(tf@));
            assert(str_views(vpk_exe@) =~= vpk_path_of(str_views(studiomdl@)));
            assert(str_views(target_folder@) =~= package_target_of(str_views(tf@)));
            assert(str_views(archive_source@) =~= archive_source_of(str_views(tf@)));
            assert(str_views(archive_dest@) =~= archive_dest_of(str_views(tf@)));
        }
        PackagePlan { vpk_exe, target_folder, archive_source, archive_dest }
    }
}

} // verus!
