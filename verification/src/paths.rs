//! Joining of Unix path text, as `std::path::Path::join` does it for a
//! relative component.
use vstd::prelude::*;

verus! {

/// `base.join(comp)` for a relative `comp`: a separator is inserted unless
/// `base` is empty or already ends with one.
pub open spec fn joined(base: Seq<char>, comp: Seq<char>) -> Seq<char> {
    if base.len() == 0 || base.last() == '/' {
        base + comp
    } else {
        base + seq!['/'] + comp
    }
}

/// A relative path component: it does not start at the root.
pub open spec fn is_relative(comp: Seq<char>) -> bool {
    comp.len() == 0 || comp[0] != '/'
}

/// `base.join(comp)`: an absolute `comp` replaces the base; a relative one
/// is appended as `joined` says.
pub open spec fn path_join(base: Seq<char>, comp: Seq<char>) -> Seq<char> {
    if is_relative(comp) {
        joined(base, comp)
    } else {
        comp
    }
}

/// Join a component onto a base path, as `Path::join` does: an absolute
/// component replaces the base.
pub fn join_relative(base: &str, comp: &str) -> (res: String)
    ensures
        res@ == path_join(base@, comp@),
{
    let c = crate::text::chars_of(comp);
    if c.len() > 0 && c[0] == '/' {
        return crate::text::owned(comp);
    }
    let b = crate::text::chars_of(base);
    let mut res = crate::text::owned(base);
    if b.len() > 0 && b[b.len() - 1] != '/' {
        crate::text::push_char(&mut res, '/');
    }
    crate::text::push_str(&mut res, comp);
    res
}

} // verus!
