use crate::text::{chars_of, string_of};
use vstd::prelude::*;

verus! {

/// The name of a module in a linker map file: the object file's name and,
/// for a member of a library, the library's path (`lib/none.lib(copydata.o)`).
#[derive(Debug, PartialEq, Eq)]
pub struct ModuleName {
    pub name: String,
    pub path: Option<String>,
}

/// The index of the last `c` in `s`.
pub open spec fn rfind(s: Seq<char>, c: char) -> Option<int>
    decreases s.len(),
{
    if s.len() == 0 {
        None
    } else if s.last() == c {
        Some(s.len() - 1)
    } else {
        rfind(s.drop_last(), c)
    }
}

/// How a module name reads: `path(name)` when it ends in `)` and holds a
/// `(` before that (the last one), otherwise just a name.
pub open spec fn module_name_spec(s: Seq<char>) -> (Seq<char>, Option<Seq<char>>) {
    if s.len() > 0 && s.last() == ')' {
        let prefix = s.drop_last();
        match rfind(prefix, '(') {
            Some(i) => (prefix.skip(i + 1), Some(prefix.take(i))),
            None => (s, None),
        }
    } else {
        (s, None)
    }
}

impl ModuleName {
    pub open spec fn spec_fields(&self) -> (Seq<char>, Option<Seq<char>>) {
        (
            self.name@,
            match self.path {
                Some(p) => Some(p@),
                None => None,
            },
        )
    }

    /// Parses a module name; this never fails.
    pub fn from_str(s: &str) -> (r: ModuleName)
        ensures
            r.spec_fields() == module_name_spec(s@),
    {
        let v = chars_of(s);
        let n = v.len();
        if n > 0 && v[n - 1] == ')' {
            let ghost prefix = v@.drop_last();
            let mut i = n - 1;
            while i > 0 && v[i - 1] != '('
                invariant
                    n == v@.len(),
                    0 <= i <= n - 1,
                    prefix == v@.take(n - 1),
                    rfind(prefix, '(') == rfind(v@.take(i as int), '('),
                decreases i,
            {
                assert(v@.take(i as int).drop_last() =~= v@.take(i - 1));
                i -= 1;
            }
            if i == 0 {
                assert(v@.take(0) =~= Seq::<char>::empty());
                let name = string_of(&v, 0, n);
                assert(v@.subrange(0, n as int) =~= v@);
                ModuleName { name, path: None }
            } else {
                assert(rfind(v@.take(i as int), '(') == Some(i - 1));
                let name = string_of(&v, i, n - 1);
                let path = string_of(&v, 0, i - 1);
                assert(v@.subrange(i as int, n - 1) =~= prefix.skip(i as int));
                assert(v@.subrange(0, i - 1) =~= prefix.take(i - 1));
                ModuleName { name, path: Some(path) }
            }
        } else {
            let name = string_of(&v, 0, n);
            assert(v@.subrange(0, n as int) =~= v@);
            ModuleName { name, path: None }
        }
    }
}

} // verus!
