//! Clipboard formats: a name paired with the platform handle it resolves
//! to, the per-snapshot format enumeration, and the provider-local cache
//! that avoids repeating the native handle-to-name round trip.

use vstd::prelude::*;

verus! {

/// One clipboard content representation: a name (such as a MIME type or a
/// registered custom type) and the platform-specific handle identifying it.
#[derive(Debug, Clone)]
pub struct Format {
    pub(crate) name: String,
    pub(crate) id: u32,
}

/// Mathematical model of a [`Format`].
pub struct FormatModel {
    pub name: Seq<char>,
    pub id: u32,
}

impl View for Format {
    type V = FormatModel;

    closed spec fn view(&self) -> FormatModel {
        FormatModel { name: self.name@, id: self.id }
    }
}

impl Format {
    /// Pairs a name with the handle the provider resolved for it.
    pub fn new(name: String, id: u32) -> (r: Format)
        ensures
            r@.name == name@,
            r@.id == id,
    {
        Format { name, id }
    }

    /// The name of the format.
    pub fn name(&self) -> (r: &str)
        ensures
            r@ == self@.name,
    {
        self.name.as_str()
    }

    /// The platform handle of the format.
    pub fn id(&self) -> (r: u32)
        ensures
            r == self@.id,
    {
        self.id
    }
}

/// The formats one clipboard snapshot advertises, rebuilt on every
/// detected change. Insertion order is irrelevant; membership by handle
/// or name is the only required operation.
#[derive(Debug)]
pub struct Formats {
    pub(crate) data: Vec<Format>,
}

impl View for Formats {
    type V = Seq<FormatModel>;

    closed spec fn view(&self) -> Seq<FormatModel> {
        self.data@.map_values(|f: Format| f@)
    }
}

impl Formats {
    /// An empty enumeration.
    pub fn new() -> (r: Formats)
        ensures
            r@ == Seq::<FormatModel>::empty(),
    {
        let r = Formats { data: Vec::new() };
        proof {
            assert(r@ =~= Seq::<FormatModel>::empty());
        }
        r
    }

    /// Wraps an enumerated list of formats.
    pub fn from_vec(data: Vec<Format>) -> (r: Formats)
        ensures
            r@ == data@.map_values(|f: Format| f@),
    {
        Formats { data }
    }

    /// How many formats are advertised.
    pub fn len(&self) -> (r: usize)
        ensures
            r == self@.len(),
    {
        self.data.len()
    }

    /// The format at one position of the enumeration.
    pub fn get(&self, i: usize) -> (r: &Format)
        requires
            i < self@.len(),
        ensures
            r@ == self@[i as int],
    {
        &self.data[i]
    }

    /// Whether a format with this handle is advertised.
    pub fn contains_id(&self, id: u32) -> (r: bool)
        ensures
            r == exists|k: int| 0 <= k < self@.len() && (#[trigger] self@[k]).id == id,
    {
        let n = self.data.len();
        let mut i: usize = 0;
        while i < n
            invariant
                n == self@.len(),
                0 <= i <= n,
                forall|k: int| 0 <= k < i ==> (#[trigger] self@[k]).id != id,
            decreases n - i,
        {
            if self.data[i].id == id {
                assert(self@[i as int].id == id);
                return true;
            }
            i = i + 1;
        }
        false
    }
}

/// The provider-local cache of handle-to-name resolutions: resolving a
/// handle is a potentially expensive native round trip, so each successful
/// resolution is kept for the provider's lifetime. Handles are unique.
pub struct FormatCache {
    entries: Vec<Format>,
}

impl FormatCache {
    /// The cached resolutions, in insertion order.
    pub closed spec fn entries(&self) -> Seq<FormatModel> {
        self.entries@.map_values(|f: Format| f@)
    }

    /// Whether a handle is cached.
    pub open spec fn has_handle(&self, id: u32) -> bool {
        exists|k: int| 0 <= k < self.entries().len() && (#[trigger] self.entries()[k]).id == id
    }

    /// Structural invariant: no handle is cached twice.
    pub open spec fn wf(&self) -> bool {
        forall|i: int, j: int|
            0 <= i < j < self.entries().len() ==> (#[trigger] self.entries()[i]).id != (
            #[trigger] self.entries()[j]).id
    }

    /// An empty cache.
    pub fn new() -> (r: FormatCache)
        ensures
            r.wf(),
            r.entries() == Seq::<FormatModel>::empty(),
    {
        let r = FormatCache { entries: Vec::new() };
        proof {
            assert(r.entries() =~= Seq::<FormatModel>::empty());
        }
        r
    }

    /// The cached name of a handle, if its resolution was stored.
    pub fn lookup(&self, id: u32) -> (r: Option<&String>)
        requires
            self.wf(),
        ensures
            match r {
                Some(name) => exists|k: int|
                    0 <= k < self.entries().len() && (#[trigger] self.entries()[k]).id == id
                        && self.entries()[k].name == name@,
                None => !self.has_handle(id),
            },
    {
        let n = self.entries.len();
        let mut i: usize = 0;
        while i < n
            invariant
                n == self.entries().len(),
                0 <= i <= n,
                forall|k: int| 0 <= k < i ==> (#[trigger] self.entries()[k]).id != id,
            decreases n - i,
        {
            if self.entries[i].id == id {
                assert(self.entries()[i as int].id == id);
                return Some(&self.entries[i].name);
            }
            i = i + 1;
        }
        None
    }

    /// Stores one fresh resolution.
    pub fn insert(&mut self, format: Format)
        requires
            old(self).wf(),
            !old(self).has_handle(format@.id),
        ensures
            final(self).wf(),
            final(self).entries() == old(self).entries().push(format@),
            final(self).has_handle(format@.id),
    {
        let ghost e0 = self.entries();
        let ghost fid = format@.id;
        self.entries.push(format);
        proof {
            assert(self.entries() =~= e0.push(format@));
            let last = self.entries().len() - 1;
            assert((self.entries()[last]).id == fid);
            assert forall|i: int, j: int|
                0 <= i < j < self.entries().len() implies (#[trigger] self.entries()[i]).id != (
            #[trigger] self.entries()[j]).id by {
                if j < last {
                    assert(e0[i].id != e0[j].id);
                } else {
                    assert(self.entries()[i] == e0[i]);
                }
            }
        }
    }
}

} // verus!
