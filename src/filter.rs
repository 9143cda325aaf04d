use vstd::prelude::*;
use vstd::string::*;

verus! {

/// Which entries a listing keeps.
#[derive(Clone, Copy, Debug, PartialEq, Eq, Structural)]
pub struct FilterConfig {
    /// Keep entries whose name begins with a dot.
    pub show_hidden: bool,
    /// Keep entries that are not directories.
    pub show_files: bool,
}

impl FilterConfig {
    pub open spec fn initial_spec() -> FilterConfig {
        FilterConfig { show_hidden: false, show_files: true }
    }

    pub open spec fn toggled_hidden_spec(self) -> FilterConfig {
        FilterConfig { show_hidden: !self.show_hidden, ..self }
    }

    pub open spec fn toggled_files_spec(self) -> FilterConfig {
        FilterConfig { show_files: !self.show_files, ..self }
    }

    /// The filters a browser starts with: hidden entries left out, files shown.
    pub fn initial() -> (r: FilterConfig)
        ensures
            r == FilterConfig::initial_spec(),
    {
        FilterConfig { show_hidden: false, show_files: true }
    }

    /// The same filters with `show_hidden` flipped.
    pub fn toggled_hidden(self) -> (r: FilterConfig)
        ensures
            r == self.toggled_hidden_spec(),
    {
        FilterConfig { show_hidden: !self.show_hidden, show_files: self.show_files }
    }

    /// The same filters with `show_files` flipped.
    pub fn toggled_files(self) -> (r: FilterConfig)
        ensures
            r == self.toggled_files_spec(),
    {
        FilterConfig { show_hidden: self.show_hidden, show_files: !self.show_files }
    }
}

/// One child of a directory: its last path component and whether it is a directory.
#[derive(Debug)]
pub struct Entry {
    pub name: String,
    pub is_directory: bool,
}

/// A name is hidden when it begins with a dot.
pub open spec fn is_hidden_name(name: Seq<char>) -> bool {
    name.len() > 0 && name[0] == '.'
}

/// Whether a listing under `f` keeps `e`: hidden entries only when they are
/// shown, and non-directories only when files are shown.
pub open spec fn admits(f: FilterConfig, e: Entry) -> bool {
    (is_hidden_name(e.name@) ==> f.show_hidden) && (e.is_directory || f.show_files)
}

/// The children of a directory that a listing under `f` keeps, in their order.
pub open spec fn listed(children: Seq<Entry>, f: FilterConfig) -> Seq<Entry> {
    children.filter(|e: Entry| admits(f, e))
}

impl Entry {
    pub fn new(name: String, is_directory: bool) -> (r: Entry)
        ensures
            r.name == name,
            r.is_directory == is_directory,
    {
        Entry { name, is_directory }
    }

    /// A copy of this entry, equal to it.
    pub fn duplicate(&self) -> (r: Entry)
        ensures
            r == *self,
    {
        Entry { name: self.name.clone(), is_directory: self.is_directory }
    }

    /// Whether the entry's name begins with a dot.
    pub fn is_hidden(&self) -> (r: bool)
        ensures
            r == is_hidden_name(self.name@),
    {
        let s = self.name.as_str();
        if s.unicode_len() == 0 {
            false
        } else {
            s.get_char(0) == '.'
        }
    }

    /// Whether a listing under `f` keeps this entry.
    pub fn admitted_by(&self, f: FilterConfig) -> (r: bool)
        ensures
            r == admits(f, *self),
    {
        (!self.is_hidden() || f.show_hidden) && (self.is_directory || f.show_files)
    }
}

/// The children of a directory that pass the filters, in the order given.
pub fn list(children: &Vec<Entry>, f: FilterConfig) -> (r: Vec<Entry>)
    ensures
        r@ == listed(children@, f),
{
    let mut out: Vec<Entry> = Vec::new();
    let mut i: usize = 0;
    while i < children.len()
        invariant
            i <= children@.len(),
            out@ == listed(children@.subrange(0, i as int), f),
        decreases children@.len() - i,
    {
        let e = children[i].duplicate();
        proof {
            let pred = |e: Entry| admits(f, e);
            let next = children@.subrange(0, i as int + 1);
            assert(next.drop_last() == children@.subrange(0, i as int));
            reveal(Seq::filter);
            assert(next.filter(pred) == if pred(next.last()) {
                next.drop_last().filter(pred).push(next.last())
            } else {
                next.drop_last().filter(pred)
            });
        }
        if e.admitted_by(f) {
            out.push(e);
        }
        i = i + 1;
    }
    assert(children@.subrange(0, children@.len() as int) == children@);
    out
}

} // verus!
