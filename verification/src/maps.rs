//! Typed accessors over kernel map handles.
//!
//! The kernel itself is reached through the [`MapKeyOps`] / [`MapOps`]
//! capabilities, so the decision logic here is checked for every outcome the
//! kernel may produce, and tests can substitute a deterministic stand-in.

use core::marker::PhantomData;

use vstd::prelude::*;

use crate::obj_maps::ObjMap;

verus! {

/// An error working with a map.
#[derive(Debug)]
pub enum MapError {
    /// The requested accessor does not fit the map's type.
    InvalidMapType {
        /// The kernel map type code found in the object.
        map_type: u32,
    },
    /// The key size declared in the object differs from the accessor's.
    InvalidKeySize {
        /// Size in bytes of the accessor's key.
        size: usize,
        /// Size in bytes declared in the object.
        expected: usize,
    },
    /// The value size declared in the object differs from the accessor's.
    InvalidValueSize {
        /// Size in bytes of the accessor's value.
        size: usize,
        /// Size in bytes declared in the object.
        expected: usize,
    },
    /// The map has not been created by the kernel yet.
    NotCreated,
    /// The requested key was not found.
    KeyNotFound,
    /// A syscall failed.
    SyscallError {
        /// The name of the syscall wrapper that failed.
        call: String,
        /// The raw operating-system error code.
        code: i32,
    },
}

/// A map handle as parsed from an object file, plus its kernel-side state.
pub struct MapData {
    /// The definition read from the object file.
    pub obj: ObjMap,
    /// The kernel file descriptor, once the map has been created.
    pub fd: Option<i32>,
    /// Whether the map is pinned to the kernel filesystem.
    pub pinned: bool,
    /// File descriptor of the type-debug blob loaded for this map, if any.
    pub btf_fd: Option<i32>,
}

impl MapData {
    /// Returns the kernel file descriptor, or the not-created error.
    pub fn fd_or_err(&self) -> (r: Result<i32, MapError>)
        ensures
            r matches Ok(fd) ==> self.fd == Some(fd),
            r is Ok <==> self.fd is Some,
            r is Err ==> r matches Err(MapError::NotCreated),
    {
        match self.fd {
            Some(fd) => Ok(fd),
            None => Err(MapError::NotCreated),
        }
    }
}

/// A created map of some concrete kernel type, ready to hand to an accessor.
pub enum BpfMap {
    /// An array map.
    Array(MapData),
    /// A perf event array.
    PerfEventArray(MapData),
    /// A longest-prefix-match trie.
    LpmTrie(MapData),
}

/// Fixed-size plain-data types that can be stored in a map.
///
/// The reported size is the byte width of the type's kernel representation.
pub trait Pod: Copy + Sized {
    /// The byte width of the type as the kernel sees it.
    spec fn spec_pod_size() -> u32;

    /// Returns the byte width of the type as the kernel sees it.
    fn pod_size() -> (r: u32)
        ensures
            r == Self::spec_pod_size(),
            r <= 0xFFFF,
    ;
}

impl Pod for u8 {
    open spec fn spec_pod_size() -> u32 {
        1
    }

    fn pod_size() -> u32 {
        1
    }
}

impl Pod for u16 {
    open spec fn spec_pod_size() -> u32 {
        2
    }

    fn pod_size() -> u32 {
        2
    }
}

impl Pod for u32 {
    open spec fn spec_pod_size() -> u32 {
        4
    }

    fn pod_size() -> u32 {
        4
    }
}

impl Pod for u64 {
    open spec fn spec_pod_size() -> u32 {
        8
    }

    fn pod_size() -> u32 {
        8
    }
}

impl Pod for i32 {
    open spec fn spec_pod_size() -> u32 {
        4
    }

    fn pod_size() -> u32 {
        4
    }
}

impl Pod for i64 {
    open spec fn spec_pod_size() -> u32 {
        8
    }

    fn pod_size() -> u32 {
        8
    }
}

/// Read access to the [`MapData`] inside an accessor's handle.
pub trait BorrowMapData {
    /// The map handle seen through this reference.
    spec fn spec_map_data(&self) -> MapData;

    /// Returns the map handle seen through this reference.
    fn borrow_map_data(&self) -> (r: &MapData)
        ensures
            *r == self.spec_map_data(),
    ;
}

impl<'a> BorrowMapData for &'a MapData {
    open spec fn spec_map_data(&self) -> MapData {
        **self
    }

    fn borrow_map_data(&self) -> &MapData {
        self
    }
}

impl<'a> BorrowMapData for &'a mut MapData {
    open spec fn spec_map_data(&self) -> MapData {
        **self
    }

    fn borrow_map_data(&self) -> &MapData {
        self
    }
}

/// A key for a longest-prefix-match trie map.
#[derive(Copy, Clone)]
pub struct Key<K: Pod> {
    /// The number of bits matched against.
    pub prefix_len: u32,
    /// Arbitrary data stored in the trie.
    pub data: K,
}

impl<K: Pod> Key<K> {
    /// Creates a new key.
    pub fn new(prefix_len: u32, data: K) -> (r: Self)
        ensures
            r.prefix_len == prefix_len,
            r.data == data,
    {
        Self { prefix_len, data }
    }

    /// The byte width of a full trie key: four prefix bytes plus the data.
    pub open spec fn spec_size() -> int {
        4 + K::spec_pod_size()
    }

    /// Returns the byte width of a full trie key.
    pub fn size() -> (r: u32)
        ensures
            r == Self::spec_size(),
    {
        4 + K::pod_size()
    }
}

/// The kernel operations a key cursor needs: the next-key lookup.
///
/// The kernel's answers are outside this library, so nothing is promised of
/// them; every caller is checked against all outcomes.
pub trait MapKeyOps<K: Pod> {
    /// Asks the kernel for the key following `key`, or the first key for `None`.
    ///
    /// `Ok(None)` means the end of the map was reached; `Err` carries the raw
    /// operating-system error code.
    fn map_get_next_key(&mut self, fd: i32, key: Option<&Key<K>>) -> Result<Option<Key<K>>, i32>;
}

/// The kernel operations a typed map accessor needs.
///
/// The kernel's answers are outside this library, so nothing is promised of
/// them; every caller is checked against all outcomes.
pub trait MapOps<K: Pod, V: Pod>: MapKeyOps<K> {
    /// Looks a key up; `Ok(None)` means the key is absent.
    fn map_lookup_elem(&mut self, fd: i32, key: &Key<K>, flags: u64) -> Result<Option<V>, i32>;

    /// Inserts or updates an element.
    fn map_update_elem(&mut self, fd: i32, key: &Key<K>, value: &V, flags: u64) -> Result<
        (),
        i32,
    >;

    /// Deletes an element.
    fn map_delete_elem(&mut self, fd: i32, key: &Key<K>) -> Result<(), i32>;
}

/// Names the lookup syscall in diagnostics.
pub open spec fn lookup_call_name() -> Seq<char> {
    "bpf_map_lookup_elem"@
}

/// Names the update syscall in diagnostics.
pub open spec fn update_call_name() -> Seq<char> {
    "bpf_map_update_elem"@
}

/// Names the delete syscall in diagnostics.
pub open spec fn delete_call_name() -> Seq<char> {
    "bpf_map_delete_elem"@
}

/// Names the next-key syscall in diagnostics.
pub open spec fn next_key_call_name() -> Seq<char> {
    "bpf_map_get_next_key"@
}

/// Translates a lookup outcome into the accessor's result.
pub fn lookup_outcome<V: Pod>(res: Result<Option<V>, i32>) -> (r: Result<V, MapError>)
    ensures
        res matches Ok(Some(v)) ==> (r matches Ok(rv) && rv == v),
        r is Ok ==> (res matches Ok(o) && o is Some),
        res == Ok::<Option<V>, i32>(None) <==> r matches Err(MapError::KeyNotFound),
        res matches Err(c) ==> (r matches Err(MapError::SyscallError { call, code })
            && call@ == lookup_call_name() && code == c),
        r matches Err(MapError::SyscallError { call, code }) ==> res == Err::<Option<V>, i32>(code),
{
    match res {
        Ok(Some(v)) => Ok(v),
        Ok(None) => Err(MapError::KeyNotFound),
        Err(code) => Err(
            MapError::SyscallError { call: "bpf_map_lookup_elem".to_owned(), code },
        ),
    }
}

/// Translates an update or delete outcome into the accessor's result.
///
/// `name` must already hold the syscall wrapper's name.
pub fn write_outcome(res: Result<(), i32>, name: String) -> (r: Result<(), MapError>)
    ensures
        res is Ok <==> r is Ok,
        res matches Err(c) ==> (r matches Err(MapError::SyscallError { call, code })
            && call@ == name@ && code == c),
{
    match res {
        Ok(()) => Ok(()),
        Err(code) => Err(MapError::SyscallError { call: name, code }),
    }
}

/// A longest-prefix-match trie map accessor.
pub struct LpmTrie<T, K: Pod, V: Pod> {
    inner: T,
    _k: PhantomData<K>,
    _v: PhantomData<V>,
}

impl<'a, K: Pod, V: Pod> LpmTrie<&'a MapData, K, V> {
    /// Wraps the trie variant of a parsed map, refusing every other map type.
    pub fn try_from(map: &'a BpfMap) -> (r: Result<LpmTrie<&MapData, K, V>, MapError>)
        ensures
            match *map {
                BpfMap::LpmTrie(data) => {
                    &&& (r is Ok <==> LpmTrie::<&MapData, K, V>::spec_fits(data))
                    &&& (r matches Ok(t) ==> t.spec_data() == data)
                },
                BpfMap::Array(data) => (r matches Err(MapError::InvalidMapType { map_type })
                    && map_type == data.obj.spec_map_type()),
                BpfMap::PerfEventArray(data) => (r matches Err(MapError::InvalidMapType { map_type })
                    && map_type == data.obj.spec_map_type()),
            },
    {
        match map {
            BpfMap::LpmTrie(data) => LpmTrie::<&MapData, K, V>::new(data),
            BpfMap::Array(data) => Err(
                MapError::InvalidMapType { map_type: data.obj.map_type() },
            ),
            BpfMap::PerfEventArray(data) => Err(
                MapError::InvalidMapType { map_type: data.obj.map_type() },
            ),
        }
    }
}

impl<T: BorrowMapData, K: Pod, V: Pod> LpmTrie<T, K, V> {
    /// The map handle the accessor wraps.
    pub closed spec fn spec_data(&self) -> MapData {
        self.inner.spec_map_data()
    }

    /// Whether the handle's declared sizes fit this accessor and the map exists.
    pub open spec fn spec_fits(data: MapData) -> bool {
        &&& data.obj.spec_key_size() == Key::<K>::spec_size()
        &&& data.obj.spec_value_size() == V::spec_pod_size()
        &&& data.fd is Some
    }

    /// Wraps a map handle, checking key size, value size, and creation.
    pub fn new(map: T) -> (r: Result<LpmTrie<T, K, V>, MapError>)
        ensures
            map.spec_map_data().obj.spec_key_size() != Key::<K>::spec_size() ==> (r matches Err(
                MapError::InvalidKeySize { size, expected },
            ) && size == Key::<K>::spec_size() && expected == map.spec_map_data().obj.spec_key_size()),
            map.spec_map_data().obj.spec_key_size() == Key::<K>::spec_size()
                && map.spec_map_data().obj.spec_value_size() != V::spec_pod_size() ==> (r matches Err(
                MapError::InvalidValueSize { size, expected },
            ) && size == V::spec_pod_size() && expected == map.spec_map_data().obj.spec_value_size()),
            map.spec_map_data().obj.spec_key_size() == Key::<K>::spec_size()
                && map.spec_map_data().obj.spec_value_size() == V::spec_pod_size()
                && map.spec_map_data().fd is None ==> r matches Err(MapError::NotCreated),
            Self::spec_fits(map.spec_map_data()) <==> r is Ok,
            r matches Ok(t) ==> t.spec_data() == map.spec_map_data(),
    {
        let key_size = Key::<K>::size();
        let value_size = V::pod_size();
        let data = map.borrow_map_data();
        let obj_key_size = data.obj.key_size();
        if obj_key_size != key_size {
            return Err(
                MapError::InvalidKeySize { size: key_size as usize, expected: obj_key_size as usize },
            );
        }
        let obj_value_size = data.obj.value_size();
        if obj_value_size != value_size {
            return Err(
                MapError::InvalidValueSize {
                    size: value_size as usize,
                    expected: obj_value_size as usize,
                },
            );
        }
        match data.fd_or_err() {
            Ok(_) => Ok(LpmTrie { inner: map, _k: PhantomData, _v: PhantomData }),
            Err(e) => Err(e),
        }
    }

    /// Returns the value of the longest prefix matching the key.
    ///
    /// The outcome follows the kernel's answer: the value when one came back,
    /// [`MapError::KeyNotFound`] when none did, and the syscall diagnostic on
    /// failure. A handle without a descriptor is refused outright.
    pub fn get<S: MapOps<K, V>>(&self, sys: &mut S, key: &Key<K>, flags: u64) -> (r: Result<
        V,
        MapError,
    >)
        ensures
            self.spec_data().fd is None <==> r matches Err(MapError::NotCreated),
            r matches Err(MapError::SyscallError { call, code }) ==> call@ == lookup_call_name(),
            r is Err ==> (r matches Err(MapError::NotCreated) || r matches Err(
                MapError::KeyNotFound,
            ) || r matches Err(MapError::SyscallError { .. })),
    {
        let data = self.inner.borrow_map_data();
        let fd = match data.fd_or_err() {
            Ok(fd) => fd,
            Err(e) => {
                return Err(e);
            },
        };
        lookup_outcome(sys.map_lookup_elem(fd, key, flags))
    }

    /// An iterator visiting all key-value pairs in arbitrary order.
    pub fn iter(&self) -> (r: MapIter<'_, K, V>)
        ensures
            r.spec_map() == self.spec_data(),
            !r.spec_err(),
            r.spec_cursor() is None,
    {
        MapIter::new(self.inner.borrow_map_data())
    }

    /// An iterator visiting all keys in arbitrary order.
    pub fn keys(&self) -> (r: MapKeys<'_, K>)
        ensures
            r.spec_map() == self.spec_data(),
            !r.spec_err(),
            r.spec_cursor() is None,
    {
        MapKeys::new(self.inner.borrow_map_data())
    }

    /// An iterator visiting all keys that follow `key` in the trie's order.
    pub fn iter_key(&self, key: Key<K>) -> (r: LpmTrieKeys<'_, K>)
        ensures
            r.spec_map() == self.spec_data(),
            !r.spec_err(),
            r.spec_cursor() == key,
    {
        LpmTrieKeys::new(self.inner.borrow_map_data(), key)
    }

    /// Inserts a key-value pair into the map.
    ///
    /// Success follows the kernel's answer; a handle without a descriptor is
    /// refused outright.
    pub fn insert<S: MapOps<K, V>>(
        &mut self,
        sys: &mut S,
        key: &Key<K>,
        value: V,
        flags: u64,
    ) -> (r: Result<(), MapError>)
        ensures
            old(self).spec_data().fd is None <==> r matches Err(MapError::NotCreated),
            r matches Err(MapError::SyscallError { call, code }) ==> call@ == update_call_name(),
            r is Err ==> (r matches Err(MapError::NotCreated) || r matches Err(
                MapError::SyscallError { .. },
            )),
            *final(self) == *old(self),
    {
        let data = self.inner.borrow_map_data();
        let fd = match data.fd_or_err() {
            Ok(fd) => fd,
            Err(e) => {
                return Err(e);
            },
        };
        write_outcome(sys.map_update_elem(fd, key, &value, flags), "bpf_map_update_elem".to_owned())
    }

    /// Removes an element from the map.
    ///
    /// Both the prefix and data must match exactly; this is not a longest
    /// prefix match. Success follows the kernel's answer.
    pub fn remove<S: MapOps<K, V>>(&mut self, sys: &mut S, key: &Key<K>) -> (r: Result<
        (),
        MapError,
    >)
        ensures
            old(self).spec_data().fd is None <==> r matches Err(MapError::NotCreated),
            r matches Err(MapError::SyscallError { call, code }) ==> call@ == delete_call_name(),
            r is Err ==> (r matches Err(MapError::NotCreated) || r matches Err(
                MapError::SyscallError { .. },
            )),
            *final(self) == *old(self),
    {
        let data = self.inner.borrow_map_data();
        let fd = match data.fd_or_err() {
            Ok(fd) => fd,
            Err(e) => {
                return Err(e);
            },
        };
        write_outcome(sys.map_delete_elem(fd, key), "bpf_map_delete_elem".to_owned())
    }
}

/// Cursor over all keys of a map, in the order the kernel hands them out.
pub struct MapKeys<'coll, K: Pod> {
    map: &'coll MapData,
    err: bool,
    key: Option<Key<K>>,
}

impl<'coll, K: Pod> MapKeys<'coll, K> {
    /// The map handle the cursor walks.
    pub closed spec fn spec_map(&self) -> MapData {
        *self.map
    }

    /// Whether the cursor stopped on an error.
    pub closed spec fn spec_err(&self) -> bool {
        self.err
    }

    /// The key the next step continues from; `None` before the first step.
    pub closed spec fn spec_cursor(&self) -> Option<Key<K>> {
        self.key
    }

    /// Returns the map handle the cursor walks.
    pub fn map(&self) -> (r: &MapData)
        ensures
            *r == self.spec_map(),
    {
        self.map
    }

    /// Creates a cursor at the start of the map.
    pub fn new(map: &'coll MapData) -> (r: MapKeys<'coll, K>)
        ensures
            r.spec_map() == *map,
            !r.spec_err(),
            r.spec_cursor() is None,
    {
        MapKeys { map, err: false, key: None }
    }

    /// Marks the cursor as stopped on an error.
    pub fn stop(&mut self)
        ensures
            final(self).spec_err(),
            final(self).spec_map() == old(self).spec_map(),
            final(self).spec_cursor() == old(self).spec_cursor(),
    {
        self.err = true;
    }

    /// Asks the kernel for the next key.
    ///
    /// After an error the cursor is exhausted and keeps returning `None`.
    pub fn next<S: MapKeyOps<K>>(&mut self, sys: &mut S) -> (r: Option<Result<Key<K>, MapError>>)
        ensures
            old(self).spec_err() ==> r is None && *final(self) == *old(self),
            final(self).spec_map() == old(self).spec_map(),
            r matches Some(Ok(k)) ==> final(self).spec_cursor() == Some(k)
                && !final(self).spec_err(),
            r matches Some(Err(e)) ==> final(self).spec_err(),
            r is None ==> *final(self) == *old(self),
            old(self).spec_map().fd is None && !old(self).spec_err() ==> r matches Some(
                Err(MapError::NotCreated),
            ),
            r matches Some(Err(MapError::NotCreated)) ==> old(self).spec_map().fd is None,
            r matches Some(Err(MapError::SyscallError { call, code })) ==> call@
                == next_key_call_name(),
            r matches Some(Err(e)) ==> (e is NotCreated || e is SyscallError),
    {
        if self.err {
            return None;
        }
        let fd = match self.map.fd_or_err() {
            Ok(fd) => fd,
            Err(e) => {
                self.err = true;
                return Some(Err(e));
            },
        };
        let cursor = match &self.key {
            Some(k) => Some(k),
            None => None,
        };
        match sys.map_get_next_key(fd, cursor) {
            Ok(Some(key)) => {
                self.key = Some(key);
                Some(Ok(key))
            },
            Ok(None) => None,
            Err(code) => {
                self.err = true;
                Some(
                    Err(
                        MapError::SyscallError { call: "bpf_map_get_next_key".to_owned(), code },
                    ),
                )
            },
        }
    }
}

/// Cursor over the key-value pairs of a map.
pub struct MapIter<'coll, K: Pod, V: Pod> {
    keys: MapKeys<'coll, K>,
    _v: PhantomData<V>,
}

impl<'coll, K: Pod, V: Pod> MapIter<'coll, K, V> {
    /// The map handle the cursor walks.
    pub closed spec fn spec_map(&self) -> MapData {
        self.keys.spec_map()
    }

    /// Whether the cursor stopped on an error.
    pub closed spec fn spec_err(&self) -> bool {
        self.keys.spec_err()
    }

    /// The key the next step continues from; `None` before the first step.
    pub closed spec fn spec_cursor(&self) -> Option<Key<K>> {
        self.keys.spec_cursor()
    }

    /// Returns the map handle the cursor walks.
    pub fn map(&self) -> (r: &MapData)
        ensures
            *r == self.spec_map(),
    {
        self.keys.map()
    }

    /// Creates a cursor at the start of the map.
    pub fn new(map: &'coll MapData) -> (r: MapIter<'coll, K, V>)
        ensures
            r.spec_map() == *map,
            !r.spec_err(),
            r.spec_cursor() is None,
    {
        MapIter { keys: MapKeys::new(map), _v: PhantomData }
    }

    /// Advances to the next key and looks its value up.
    ///
    /// After an error the cursor is exhausted and keeps returning `None`.
    pub fn next<S: MapOps<K, V>>(&mut self, sys: &mut S) -> (r: Option<
        Result<(Key<K>, V), MapError>,
    >)
        ensures
            old(self).spec_err() ==> r is None && *final(self) == *old(self),
            final(self).spec_map() == old(self).spec_map(),
            r matches Some(Ok(kv)) ==> final(self).spec_cursor() == Some(kv.0)
                && !final(self).spec_err(),
            r matches Some(Err(e)) ==> final(self).spec_err(),
            old(self).spec_map().fd is None && !old(self).spec_err() ==> r matches Some(
                Err(MapError::NotCreated),
            ),
            r matches Some(Err(MapError::NotCreated)) ==> old(self).spec_map().fd is None,
            r matches Some(Err(MapError::SyscallError { call, code })) ==> call@
                == next_key_call_name() || call@ == lookup_call_name(),
            r matches Some(Err(e)) ==> (e is NotCreated || e is KeyNotFound
                || e is SyscallError),
    {
        let item = match self.keys.next(sys) {
            Some(Ok(key)) => key,
            Some(Err(e)) => {
                return Some(Err(e));
            },
            None => {
                return None;
            },
        };
        let fd = match self.keys.map().fd_or_err() {
            Ok(fd) => fd,
            Err(e) => {
                self.keys.stop();
                return Some(Err(e));
            },
        };
        match lookup_outcome(sys.map_lookup_elem(fd, &item, 0)) {
            Ok(v) => Some(Ok((item, v))),
            Err(e) => {
                self.keys.stop();
                Some(Err(e))
            },
        }
    }
}

/// Cursor over the keys following a given key, as the trie hands them out.
pub struct LpmTrieKeys<'coll, K: Pod> {
    map: &'coll MapData,
    err: bool,
    key: Key<K>,
}

impl<'coll, K: Pod> LpmTrieKeys<'coll, K> {
    /// The map handle the cursor walks.
    pub closed spec fn spec_map(&self) -> MapData {
        *self.map
    }

    /// Whether the cursor stopped on an error.
    pub closed spec fn spec_err(&self) -> bool {
        self.err
    }

    /// The key the next step continues from.
    pub closed spec fn spec_cursor(&self) -> Key<K> {
        self.key
    }

    /// Returns the map handle the cursor walks.
    pub fn map(&self) -> (r: &MapData)
        ensures
            *r == self.spec_map(),
    {
        self.map
    }

    /// Creates a cursor that continues from `key`.
    pub fn new(map: &'coll MapData, key: Key<K>) -> (r: LpmTrieKeys<'coll, K>)
        ensures
            r.spec_map() == *map,
            !r.spec_err(),
            r.spec_cursor() == key,
    {
        LpmTrieKeys { map, err: false, key }
    }

    /// Asks the kernel for the next key.
    ///
    /// After an error the cursor is exhausted and keeps returning `None`.
    pub fn next<S: MapKeyOps<K>>(&mut self, sys: &mut S) -> (r: Option<Result<Key<K>, MapError>>)
        ensures
            old(self).spec_err() ==> r is None && *final(self) == *old(self),
            final(self).spec_map() == old(self).spec_map(),
            r matches Some(Ok(k)) ==> final(self).spec_cursor() == k
                && !final(self).spec_err(),
            r matches Some(Err(e)) ==> final(self).spec_err(),
            r is None ==> *final(self) == *old(self),
            old(self).spec_map().fd is None && !old(self).spec_err() ==> r matches Some(
                Err(MapError::NotCreated),
            ),
            r matches Some(Err(MapError::NotCreated)) ==> old(self).spec_map().fd is None,
            r matches Some(Err(MapError::SyscallError { call, code })) ==> call@
                == next_key_call_name(),
            r matches Some(Err(e)) ==> (e is NotCreated || e is SyscallError),
    {
        if self.err {
            return None;
        }
        let fd = match self.map.fd_or_err() {
            Ok(fd) => fd,
            Err(e) => {
                self.err = true;
                return Some(Err(e));
            },
        };
        match sys.map_get_next_key(fd, Some(&self.key)) {
            Ok(Some(key)) => {
                self.key = key;
                Some(Ok(key))
            },
            Ok(None) => None,
            Err(code) => {
                self.err = true;
                Some(
                    Err(
                        MapError::SyscallError { call: "bpf_map_get_next_key".to_owned(), code },
                    ),
                )
            },
        }
    }
}

} // verus!
