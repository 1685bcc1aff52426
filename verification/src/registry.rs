//! Process-wide named-pipe registry.
//!
//! A [`Registry`] binds each logical name to one owning [`Pipe`] and hands
//! out slave clones, so many independent call sites can reach the same
//! channel without re-opening the OS object.  The backing store is a
//! concurrent map, safe to reach from many threads; callers that share one
//! registry value across threads keep it behind their own synchronization,
//! since these functions model the mutation explicitly.

use vstd::prelude::*;
use vstd::utf8::encode_utf8;
use crate::paths;
use crate::pipe::Pipe;
use crate::Error;

verus! {

/// The contents of a registry's backing map: the backing path of the stored
/// owning pipe, keyed by logical name.
pub uninterp spec fn map_entries(m: PipeMap) -> Map<Seq<char>, Seq<char>>;

/// A registry map with nothing in it.
pub open spec fn no_entries() -> Map<Seq<char>, Seq<char>> {
    Map::empty()
}

/// The concurrent map backing a registry.  flurry's guard-based interface
/// cannot be declared to the verifier, so the collection lives opaquely in
/// this struct and is reached only through the trusted methods below, whose
/// contracts speak over [`map_entries`].
#[verifier::external_body]
pub struct PipeMap {
    inner: flurry::HashMap<String, Pipe>,
}

impl PipeMap {
    /// Relies on flurry::HashMap::new: a fresh map holds nothing.
    #[verifier::external_body]
    fn new() -> (m: PipeMap)
        ensures
            map_entries(m) == no_entries(),
    {
        PipeMap { inner: flurry::HashMap::new() }
    }

    /// Relies on flurry::HashMap::insert: the entry for the key is created
    /// or replaced, and other entries stay.
    #[verifier::external_body]
    fn insert(&mut self, name: &str, pipe: Pipe)
        requires
            pipe.wf(),
            !pipe@.is_slave,
        ensures
            map_entries(*final(self)) == map_entries(*old(self)).insert(name@, pipe@.path),
    {
        self.inner.pin().insert(name.to_owned(), pipe);
    }

    /// Relies on flurry::HashMap::get: present exactly for stored keys; the
    /// stored owning pipe is handed back as a fresh slave.
    #[verifier::external_body]
    fn get_slave(&self, name: &str) -> (r: Option<Pipe>)
        ensures
            r is Some <==> map_entries(*self).contains_key(name@),
            r matches Some(p) ==> {
                &&& p.wf()
                &&& p@.is_slave
                &&& p@.delete is NoDelete
                &&& !p@.closed
                &&& p@.path == map_entries(*self)[name@]
            },
    {
        self.inner.pin().get(name).map(|p| p.slave())
    }

    /// Relies on flurry::HashMap::remove: the entry for the key, if any, is
    /// taken out, and its owning pipe is dropped.
    #[verifier::external_body]
    fn remove(&mut self, name: &str) -> (r: bool)
        ensures
            map_entries(*final(self)) == map_entries(*old(self)).remove(name@),
            r == map_entries(*old(self)).contains_key(name@),
    {
        self.inner.pin().remove(name).is_some()
    }

    /// Relies on flurry::HashMap::clear: every entry is taken out.
    #[verifier::external_body]
    fn clear(&mut self)
        ensures
            map_entries(*final(self)) == no_entries(),
    {
        self.inner.pin().clear();
    }
}

/// A name-keyed registry owning one pipe per registered logical name.
pub struct Registry {
    map: PipeMap,
}

impl View for Registry {
    type V = Map<Seq<char>, Seq<char>>;

    closed spec fn view(&self) -> Map<Seq<char>, Seq<char>> {
        map_entries(self.map)
    }
}

impl Registry {
    /// An empty registry.
    pub fn new() -> (r: Registry)
        ensures
            r@ == no_entries(),
    {
        Registry { map: PipeMap::new() }
    }
}

/// Open (or create) the named pipe, store the owning instance under the
/// name, and hand a slave of it back.
pub fn init(reg: &mut Registry, name: &str) -> (r: Result<Pipe, Error>)
    ensures
        r matches Ok(p) ==> {
            &&& final(reg)@ == old(reg)@.insert(name@, paths::unix_path_of(name@))
            &&& p.wf()
            &&& p@.is_slave
            &&& p@.delete is NoDelete
            &&& !p@.closed
            &&& p@.path == paths::unix_path_of(name@)
        },
        r is Err ==> final(reg)@ == old(reg)@,
{
    let pipe = match Pipe::with_name(name) {
        Ok(p) => p,
        Err(e) => {
            return Err(e);
        },
    };
    let slave = pipe.slave();
    reg.map.insert(name, pipe);
    Ok(slave)
}

/// A fresh slave of the pipe registered under the name, or absent if the
/// name was never registered.
pub fn get(reg: &Registry, name: &str) -> (r: Option<Pipe>)
    ensures
        r is Some <==> reg@.contains_key(name@),
        r matches Some(p) ==> {
            &&& p.wf()
            &&& p@.is_slave
            &&& p@.delete is NoDelete
            &&& !p@.closed
            &&& p@.path == reg@[name@]
        },
{
    reg.map.get_slave(name)
}

/// Unregister the name; the stored owning pipe is dropped, which triggers
/// its teardown.
pub fn close(reg: &mut Registry, name: &str)
    ensures
        final(reg)@ == old(reg)@.remove(name@),
{
    let _ = reg.map.remove(name);
}

/// Unregister every name.
pub fn close_all(reg: &mut Registry)
    ensures
        final(reg)@ == no_entries(),
{
    reg.map.clear();
}

/// Write the UTF-8 bytes of `text` through the pipe registered under the
/// name; an unregistered name fails with the not-initialized error.
pub fn print(reg: &Registry, name: &str, text: &str) -> (r: Result<usize, Error>)
    ensures
        !reg@.contains_key(name@) ==> (r matches Err(e) && e is Ipipe),
        (r matches Err(e) && e is Ipipe) ==> !reg@.contains_key(name@),
        r matches Ok(n) ==> reg@.contains_key(name@) && n <= encode_utf8(text@).len(),
{
    match get(reg, name) {
        None => Err(Error::Ipipe("Pipe not initialized")),
        Some(mut pipe) => pipe.write_string(text),
    }
}

} // verus!
