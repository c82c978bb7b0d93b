//! Arguments of a request: named string values and named files.
use vstd::prelude::*;


use crate::file::File;
use crate::file::FileView;
use crate::text::str_eq;

verus! {

/// The value of the last entry named `k` in `s`, if any.
pub open spec fn lookup<V>(s: Seq<(Seq<char>, V)>, k: Seq<char>) -> Option<V>
    decreases s.len(),
{
    if s.len() == 0 {
        None
    } else if s.last().0 == k {
        Some(s.last().1)
    } else {
        lookup(s.drop_last(), k)
    }
}

/// `s` without its entries named `k`.
pub open spec fn without_key<V>(s: Seq<(Seq<char>, V)>, k: Seq<char>) -> Seq<(Seq<char>, V)>
    decreases s.len(),
{
    if s.len() == 0 {
        s
    } else if s.last().0 == k {
        without_key(s.drop_last(), k)
    } else {
        without_key(s.drop_last(), k).push(s.last())
    }
}

/// Removing the entries named `k` leaves every other name's value alone.
pub proof fn lemma_lookup_without_key<V>(s: Seq<(Seq<char>, V)>, k: Seq<char>, k2: Seq<char>)
    ensures
        lookup(without_key(s, k), k2) == if k2 == k { None } else { lookup(s, k2) },
    decreases s.len(),
{
    if s.len() > 0 {
        lemma_lookup_without_key(s.drop_last(), k, k2);
        if s.last().0 != k {
            assert(without_key(s, k).drop_last() =~= without_key(s.drop_last(), k));
        }
    }
}

/// Whether every name of `a` has the same value in `b` as in `a`.
pub open spec fn agrees_with<V>(a: Seq<(Seq<char>, V)>, b: Seq<(Seq<char>, V)>) -> bool {
    forall|i: int| 0 <= i < a.len() ==> lookup(b, #[trigger] a[i].0) == lookup(a, a[i].0)
}

/// Whether `a` and `b` give every name the same value.
pub open spec fn same_values<V>(a: Seq<(Seq<char>, V)>, b: Seq<(Seq<char>, V)>) -> bool {
    agrees_with(a, b) && agrees_with(b, a)
}

/// The view of a list of named values.
pub open spec fn named_view<T: View>(v: Seq<(String, T)>) -> Seq<(Seq<char>, T::V)> {
    v.map_values(|e: (String, T)| (e.0@, e.1@))
}

fn find_last<T: View>(v: &Vec<(String, T)>, name: &str) -> (r: Option<usize>)
    ensures
        r is None ==> lookup(named_view(v@), name@) is None,
        r matches Some(i) ==> i < v@.len() && lookup(named_view(v@), name@) == Some(
            v@[i as int].1@,
        ),
{
    let mut i: usize = v.len();
    assert(named_view(v@).subrange(0, i as int) =~= named_view(v@));
    while i > 0
        invariant
            i <= v@.len(),
            lookup(named_view(v@), name@) == lookup(named_view(v@).subrange(0, i as int), name@),
        decreases i,
    {
        let ghost pre = named_view(v@).subrange(0, i as int);
        assert(pre.drop_last() =~= named_view(v@).subrange(0, i - 1));
        if str_eq(v[i - 1].0.as_str(), name) {
            return Some(i - 1);
        }
        i = i - 1;
    }
    None
}

fn remove_named<T: View>(v: Vec<(String, T)>, name: &str) -> (r: Vec<(String, T)>)
    ensures
        named_view(r@) == without_key(named_view(v@), name@),
{
    let ghost all = named_view(v@);
    let mut rest = v;
    let mut out: Vec<(String, T)> = Vec::new();
    let ghost mut k: int = 0;
    assert(all.subrange(0, 0) =~= Seq::<(Seq<char>, T::V)>::empty());
    while rest.len() > 0
        invariant
            0 <= k <= all.len(),
            rest@.len() == all.len() - k,
            named_view(rest@) == all.subrange(k, all.len() as int),
            named_view(out@) == without_key(all.subrange(0, k), name@),
        decreases rest.len(),
    {
        let ghost before = rest@;
        let e = rest.remove(0);
        proof {
            assert(named_view(before)[0] == all[k]);
            assert forall|j: int| 0 <= j < rest@.len() implies #[trigger] named_view(rest@)[j] == all[k
                + 1 + j] by {
                assert(rest@[j] == before[j + 1]);
                assert(named_view(before)[j + 1] == all.subrange(k, all.len() as int)[j + 1]);
            }
            assert(named_view(rest@) =~= all.subrange(k + 1, all.len() as int));
            assert(all.subrange(0, k + 1).drop_last() =~= all.subrange(0, k));
            assert(all.subrange(0, k + 1).last() == (e.0@, e.1@));
        }
        if !str_eq(e.0.as_str(), name) {
            out.push(e);
            assert(named_view(out@) =~= without_key(all.subrange(0, k), name@).push(all[k]));
        }
        proof {
            k = k + 1;
        }
    }
    assert(all.subrange(0, k) =~= all);
    out
}

fn strings_agree(a: &Vec<(String, String)>, b: &Vec<(String, String)>) -> (r: bool)
    ensures
        r == agrees_with(named_view(a@), named_view(b@)),
{
    let mut i: usize = 0;
    while i < a.len()
        invariant
            i <= a@.len(),
            forall|j: int|
                0 <= j < i ==> lookup(named_view(b@), #[trigger] named_view(a@)[j].0) == lookup(
                    named_view(a@),
                    named_view(a@)[j].0,
                ),
        decreases a@.len() - i,
    {
        let name = a[i].0.as_str();
        let same = match (find_last(a, name), find_last(b, name)) {
            (Some(p), Some(q)) => a[p].1 == b[q].1,
            (None, None) => true,
            _ => false,
        };
        if !same {
            assert(named_view(a@)[i as int].0 == name@);
            return false;
        }
        i = i + 1;
    }
    true
}

fn files_agree(a: &Vec<(String, File)>, b: &Vec<(String, File)>) -> (r: bool)
    ensures
        r == agrees_with(named_view(a@), named_view(b@)),
{
    let mut i: usize = 0;
    while i < a.len()
        invariant
            i <= a@.len(),
            forall|j: int|
                0 <= j < i ==> lookup(named_view(b@), #[trigger] named_view(a@)[j].0) == lookup(
                    named_view(a@),
                    named_view(a@)[j].0,
                ),
        decreases a@.len() - i,
    {
        let name = a[i].0.as_str();
        let same = match (find_last(a, name), find_last(b, name)) {
            (Some(p), Some(q)) => a[p].1.same_as(&b[q].1),
            (None, None) => true,
            _ => false,
        };
        if !same {
            assert(named_view(a@)[i as int].0 == name@);
            return false;
        }
        i = i + 1;
    }
    true
}

impl PartialEq for APIArguments {
    fn eq(&self, other: &APIArguments) -> (r: bool) {
        self.same_as_args(other)
    }
}

impl vstd::std_specs::cmp::PartialEqSpecImpl for APIArguments {
    open spec fn obeys_eq_spec() -> bool {
        true
    }

    open spec fn eq_spec(&self, other: &APIArguments) -> bool {
        self.same_as(other)
    }
}

/// Arguments passed to the API in a GET or POST request: string arguments
/// (`name=value`) and files, each under a name. Setting a name again replaces
/// its value.
#[derive(Debug)]
pub struct APIArguments {
    args: Vec<(String, String)>,
    files: Vec<(String, File)>,
}

impl APIArguments {
    /// The string arguments, as a list in which the last entry of a name holds its value.
    pub closed spec fn spec_args(&self) -> Seq<(Seq<char>, Seq<char>)> {
        named_view(self.args@)
    }

    /// The files, as a list in which the last entry of a name holds its file.
    pub closed spec fn spec_files(&self) -> Seq<(Seq<char>, FileView)> {
        named_view(self.files@)
    }

    /// The value of the string argument `name`, if any.
    pub open spec fn arg_value(&self, name: Seq<char>) -> Option<Seq<char>> {
        lookup(self.spec_args(), name)
    }

    /// The file under `name`, if any.
    pub open spec fn file_value(&self, name: Seq<char>) -> Option<FileView> {
        lookup(self.spec_files(), name)
    }

    /// Whether there is neither a string argument nor a file.
    pub open spec fn spec_is_empty(&self) -> bool {
        self.spec_args().len() == 0 && self.spec_files().len() == 0
    }

    /// Whether `self` and `other` hold the same value under every name.
    pub open spec fn same_as(&self, other: &APIArguments) -> bool {
        same_values(self.spec_args(), other.spec_args()) && same_values(
            self.spec_files(),
            other.spec_files(),
        )
    }

    /// Creates empty arguments.
    pub fn new() -> (r: APIArguments)
        ensures
            r.spec_is_empty(),
    {
        APIArguments { args: Vec::new(), files: Vec::new() }
    }

    /// Adds a string argument (`name=value`), replacing an earlier one of that name.
    pub fn add_string_arg(&mut self, name: &str, value: &str)
        ensures
            final(self).arg_value(name@) == Some(value@),
            forall|n: Seq<char>| n != name@ ==> final(self).arg_value(n) == old(self).arg_value(n),
            final(self).spec_files() == old(self).spec_files(),
    {
        let ghost before = self.spec_args();
        let mut args: Vec<(String, String)> = Vec::new();
        core::mem::swap(&mut args, &mut self.args);
        let mut args = remove_named(args, name);
        args.push((name.to_owned(), value.to_owned()));
        self.args = args;
        proof {
            assert(self.spec_args().drop_last() =~= without_key(before, name@));
            assert forall|n: Seq<char>| n != name@ implies self.arg_value(n) == lookup(before, n) by {
                lemma_lookup_without_key(before, name@, n);
            }
        }
    }

    /// Adds a string argument if `value` is not `None`.
    pub fn add_opt_string_arg(&mut self, name: &str, value: Option<String>)
        ensures
            value matches Some(v) ==> final(self).arg_value(name@) == Some(v@),
            forall|n: Seq<char>| #![auto] (value is None || n != name@) ==> final(self).arg_value(n)
                == old(self).arg_value(n),
            final(self).spec_files() == old(self).spec_files(),
    {
        if let Some(v) = value {
            self.add_string_arg(name, v.as_str());
        }
    }

    /// Adds a bool argument: `name=1` for `true`, `name=0` for `false`.
    pub fn add_bool_arg(&mut self, name: &str, value: bool)
        ensures
            final(self).arg_value(name@) == Some(if value { "1"@ } else { "0"@ }),
            forall|n: Seq<char>| n != name@ ==> final(self).arg_value(n) == old(self).arg_value(n),
            final(self).spec_files() == old(self).spec_files(),
    {
        if value {
            self.add_string_arg(name, "1");
        } else {
            self.add_string_arg(name, "0");
        }
    }

    /// Adds a bool argument if `value` is not `None`.
    pub fn add_opt_bool_arg(&mut self, name: &str, value: Option<bool>)
        ensures
            value matches Some(v) ==> final(self).arg_value(name@) == Some(
                if v { "1"@ } else { "0"@ },
            ),
            forall|n: Seq<char>| #![auto] (value is None || n != name@) ==> final(self).arg_value(n)
                == old(self).arg_value(n),
            final(self).spec_files() == old(self).spec_files(),
    {
        if let Some(v) = value {
            self.add_bool_arg(name, v);
        }
    }

    /// Is there a string argument with the given name?
    pub fn has_arg(&self, name: &str) -> (r: bool)
        ensures
            r == self.arg_value(name@) is Some,
    {
        find_last(&self.args, name).is_some()
    }

    /// Returns the string argument with the given name.
    pub fn get_arg(&self, name: &str) -> (r: Option<&String>)
        ensures
            match r {
                Some(s) => self.arg_value(name@) == Some(s@),
                None => self.arg_value(name@) is None,
            },
    {
        match find_last(&self.args, name) {
            Some(i) => Some(&self.args[i].1),
            None => None,
        }
    }

    /// Returns the string arguments in the order they were set, one per name.
    pub fn args(&self) -> (r: &Vec<(String, String)>)
        ensures
            named_view(r@) == self.spec_args(),
    {
        &self.args
    }

    /// Adds a file under the given name, replacing an earlier one of that name.
    pub fn add_file(&mut self, name: &str, file: File)
        ensures
            final(self).file_value(name@) == Some(file@),
            forall|n: Seq<char>| n != name@ ==> final(self).file_value(n) == old(self).file_value(n),
            final(self).spec_args() == old(self).spec_args(),
    {
        let ghost before = self.spec_files();
        let mut files: Vec<(String, File)> = Vec::new();
        core::mem::swap(&mut files, &mut self.files);
        let mut files = remove_named(files, name);
        files.push((name.to_owned(), file));
        self.files = files;
        proof {
            assert(self.spec_files().drop_last() =~= without_key(before, name@));
            assert forall|n: Seq<char>| n != name@ implies self.file_value(n) == lookup(before, n) by {
                lemma_lookup_without_key(before, name@, n);
            }
        }
    }

    /// Returns the file with the given name.
    pub fn get_file(&self, name: &str) -> (r: Option<&File>)
        ensures
            match r {
                Some(f) => self.file_value(name@) == Some(f@),
                None => self.file_value(name@) is None,
            },
    {
        match find_last(&self.files, name) {
            Some(i) => Some(&self.files[i].1),
            None => None,
        }
    }

    /// Whether `self` and `other` hold the same value under every name.
    pub fn same_as_args(&self, other: &APIArguments) -> (r: bool)
        ensures
            r == self.same_as(other),
    {
        strings_agree(&self.args, &other.args) && strings_agree(&other.args, &self.args)
            && files_agree(&self.files, &other.files) && files_agree(&other.files, &self.files)
    }

    /// Returns the files in the order they were added, one per name.
    pub fn files(&self) -> (r: &Vec<(String, File)>)
        ensures
            named_view(r@) == self.spec_files(),
    {
        &self.files
    }
}

} // verus!
