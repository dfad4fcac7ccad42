//! The per-variant transform: three spatial offsets and one rotation.
//!
//! The pipeline never computes with these values; it only compares them
//! against zero and writes them into a build-script directive. Each field is
//! therefore held as its decimal text, exactly as it will appear in the
//! directive line. The zero value is the text `"0"`, and a transform is
//! "modified" exactly when not all four fields are that zero text.

use vstd::prelude::*;

verus! {

/// Offset transform of one animation variant, each field as decimal text.
pub struct Origin {
    pub x: String,
    pub y: String,
    pub z: String,
    pub z_rot: String,
}

/// Mathematical value of an [`Origin`]: the four field texts.
#[verifier::ext_equal]
pub ghost struct OriginV {
    pub x: Seq<char>,
    pub y: Seq<char>,
    pub z: Seq<char>,
    pub z_rot: Seq<char>,
}

impl View for Origin {
    type V = OriginV;

    open spec fn view(&self) -> OriginV {
        OriginV { x: self.x@, y: self.y@, z: self.z@, z_rot: self.z_rot@ }
    }
}

/// The text of a zero field.
pub open spec fn zero_text() -> Seq<char> {
    "0"@
}

/// The all-zero transform value.
pub open spec fn zero_origin() -> OriginV {
    OriginV { x: zero_text(), y: zero_text(), z: zero_text(), z_rot: zero_text() }
}

/// A transform counts as modified exactly when not all four fields are zero.
pub open spec fn origin_modified(o: OriginV) -> bool {
    !(o.x == zero_text() && o.y == zero_text() && o.z == zero_text() && o.z_rot == zero_text())
}

impl Origin {
    /// Sets every field back to the zero text.
    pub fn reset(&mut self)
        ensures
            final(self)@ == zero_origin(),
    {
        self.x = "0".to_owned();
        self.y = "0".to_owned();
        self.z = "0".to_owned();
        self.z_rot = "0".to_owned();
    }

    /// True exactly when at least one of the four fields is not zero.
    pub fn is_modified(&self) -> (r: bool)
        ensures
            r == origin_modified(self@),
            !r <==> (self@.x == zero_text() && self@.y == zero_text() && self@.z == zero_text()
                && self@.z_rot == zero_text()),
    {
        let zero: String = "0".to_owned();
        !(self.x == zero && self.y == zero && self.z == zero && self.z_rot == zero)
    }

    /// A copy of this transform with the same four field texts.
    pub fn duplicate(&self) -> (r: Self)
        ensures
            r@ == self@,
    {
        Origin {
            x: self.x.clone(),
            y: self.y.clone(),
            z: self.z.clone(),
            z_rot: self.z_rot.clone(),
        }
    }
}

impl Default for Origin {
    /// The default transform is the all-zero value.
    fn default() -> (r: Self)
        ensures
            r@ == zero_origin(),
    {
        Origin {
            x: "0".to_owned(),
            y: "0".to_owned(),
            z: "0".to_owned(),
            z_rot: "0".to_owned(),
        }
    }
}

} // verus!
