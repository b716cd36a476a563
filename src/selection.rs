//! Which files a walk visits: those whose extension is configured, compared
//! without regard to case.
use vstd::prelude::*;

verus! {

/// What `str::to_lowercase` makes of `s`.
pub uninterp spec fn lower_of(s: Seq<char>) -> Seq<char>;

/// Relies on `str::to_lowercase`: the lower-case form of `s`, which depends on
/// its characters alone.
#[verifier::external_body]
fn lowercase(s: &str) -> (r: String)
    ensures
        r@ == lower_of(s@),
{
    s.to_lowercase()
}

/// True when some entry of `lowered` equals `ext`.
pub open spec fn listed(ext: Seq<char>, lowered: Seq<String>) -> bool {
    exists|i: int| 0 <= i < lowered.len() && (#[trigger] lowered[i])@ == ext
}

/// True when `ext` is a file extension of `extensions` without regard to case.
pub open spec fn extension_selected(ext: Seq<char>, extensions: Seq<String>) -> bool {
    exists|i: int| 0 <= i < extensions.len() && lower_of((#[trigger] extensions[i])@) == lower_of(ext)
}

/// True when the already lower-cased `ext` occurs in the already lower-cased
/// list `lowered`.
pub fn is_listed(ext: &String, lowered: &Vec<String>) -> (r: bool)
    ensures
        r == listed(ext@, lowered@),
{
    let mut i: usize = 0;
    while i < lowered.len()
        invariant
            i <= lowered.len(),
            forall|k: int| 0 <= k < i ==> (#[trigger] lowered@[k])@ != ext@,
        decreases lowered.len() - i,
    {
        if lowered[i] == *ext {
            return true;
        }
        i = i + 1;
    }
    false
}

/// True when the file extension `ext` is one of `extensions`, compared without
/// regard to case.
pub fn is_selected_extension(ext: &str, extensions: &Vec<String>) -> (r: bool)
    ensures
        r == extension_selected(ext@, extensions@),
{
    let target = lowercase(ext);
    let mut lowered: Vec<String> = Vec::new();
    let mut i: usize = 0;
    while i < extensions.len()
        invariant
            i <= extensions.len(),
            lowered@.len() == i,
            forall|k: int| 0 <= k < i ==> (#[trigger] lowered@[k])@ == lower_of(extensions@[k]@),
        decreases extensions.len() - i,
    {
        let l = lowercase(extensions[i].as_str());
        lowered.push(l);
        i = i + 1;
    }
    let r = is_listed(&target, &lowered);
    assert(r == extension_selected(ext@, extensions@)) by {
        if r {
            let k = choose|k: int| 0 <= k < lowered@.len() && (#[trigger] lowered@[k])@ == target@;
            assert(lower_of(extensions@[k]@) == lower_of(ext@));
        }
        if extension_selected(ext@, extensions@) {
            let k = choose|k: int|
                0 <= k < extensions@.len() && lower_of((#[trigger] extensions@[k])@) == lower_of(ext@);
            assert(lowered@[k]@ == target@);
        }
    }
    r
}

} // verus!
