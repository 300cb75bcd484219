//! The sizes an uploaded avatar is scaled to, and the names of its files.
use vstd::prelude::*;
use vstd::string::StringExecFns;
use crate::decimal::{format_u64, nat_digits};

verus! {

/// The sizes, among 1280, 640 and 320 and in that order, that fit inside an
/// image of `width` by `height`.
pub open spec fn fitting_sizes(width: usize, height: usize) -> Seq<usize> {
    let a: Seq<usize> = if width >= 1280 && height >= 1280 { seq![1280usize] } else { Seq::empty() };
    let b: Seq<usize> = if width >= 640 && height >= 640 { seq![640usize] } else { Seq::empty() };
    let c: Seq<usize> = if width >= 320 && height >= 320 { seq![320usize] } else { Seq::empty() };
    a + b + c
}

/// The scaled copies made of an uploaded avatar of the given dimensions.
pub fn scaled_sizes_for(width: usize, height: usize) -> (r: Vec<usize>)
    ensures
        r@ == fitting_sizes(width, height),
{
    let mut out: Vec<usize> = Vec::new();
    let mut k: usize = 0;
    while k < 3
        invariant
            k <= 3,
            out@ == (if k >= 1 && width >= 1280 && height >= 1280 { seq![1280usize] } else { Seq::<usize>::empty() })
                + (if k >= 2 && width >= 640 && height >= 640 { seq![640usize] } else { Seq::<usize>::empty() })
                + (if k >= 3 && width >= 320 && height >= 320 { seq![320usize] } else { Seq::<usize>::empty() }),
        decreases 3 - k,
    {
        let size: usize = if k == 0 { 1280 } else if k == 1 { 640 } else { 320 };
        if width >= size && height >= size {
            out.push(size);
        }
        k = k + 1;
        assert(out@ =~= (if k >= 1 && width >= 1280 && height >= 1280 { seq![1280usize] } else { Seq::<usize>::empty() })
            + (if k >= 2 && width >= 640 && height >= 640 { seq![640usize] } else { Seq::<usize>::empty() })
            + (if k >= 3 && width >= 320 && height >= 320 { seq![320usize] } else { Seq::<usize>::empty() }));
    }
    out
}

/// The file of the original upload, such as `origin.png`.
pub fn origin_file_name(ext: &str) -> (r: String)
    ensures
        r@ == "origin."@ + ext@,
{
    let mut s = "origin.".to_string();
    s.append(ext);
    s
}

/// The file of a scaled copy, such as `640x640.webp`.
pub fn scaled_file_name(size: usize) -> (r: String)
    ensures
        r@ == nat_digits(size as nat) + "x"@ + nat_digits(size as nat) + ".webp"@,
{
    let n = format_u64(size as u64);
    let mut s = n.clone();
    s.append("x");
    s.append(n.as_str());
    s.append(".webp");
    s
}

} // verus!
