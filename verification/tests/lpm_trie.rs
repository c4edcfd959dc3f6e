use std::mem;

use aya::generated::{BPF_MAP_TYPE_LPM_TRIE, BPF_MAP_TYPE_PERF_EVENT_ARRAY};
use aya::maps::{BpfMap, Key, LpmTrie, LpmTrieKeys, MapData, MapError, MapKeyOps, MapOps};
use aya::obj_maps::{bpf_map_def, LegacyMap, MapKind, ObjMap};

const EFAULT: i32 = 14;

fn new_obj_map() -> ObjMap {
    ObjMap::Legacy(LegacyMap {
        def: bpf_map_def {
            map_type: BPF_MAP_TYPE_LPM_TRIE as u32,
            key_size: mem::size_of::<Key<u32>>() as u32,
            value_size: 4,
            max_entries: 1024,
            ..Default::default()
        },
        section_index: 0,
        symbol_index: 0,
        data: Vec::new(),
        kind: MapKind::Other,
    })
}

/// A deterministic stand-in for the kernel: every call answers as told.
enum FakeSys {
    Error(i32),
    UpdateOk,
    DeleteOk,
    LookupNotFound,
    LookupValue(u32),
    /// Hands out keys with prefixes 8 and 16, then reports the end.
    TwoKeys,
}

impl MapKeyOps<u32> for FakeSys {
    fn map_get_next_key(&mut self, _fd: i32, key: Option<&Key<u32>>) -> Result<Option<Key<u32>>, i32> {
        match self {
            FakeSys::TwoKeys => match key {
                None => Ok(Some(Key::new(8, 1))),
                Some(k) if k.prefix_len == 8 => Ok(Some(Key::new(16, 2))),
                Some(_) => Ok(None),
            },
            FakeSys::Error(code) => Err(*code),
            _ => Err(EFAULT),
        }
    }
}

impl MapOps<u32, u32> for FakeSys {
    fn map_lookup_elem(&mut self, _fd: i32, _key: &Key<u32>, _flags: u64) -> Result<Option<u32>, i32> {
        match self {
            FakeSys::LookupNotFound => Ok(None),
            FakeSys::LookupValue(v) => Ok(Some(*v)),
            FakeSys::Error(code) => Err(*code),
            _ => Err(EFAULT),
        }
    }

    fn map_update_elem(&mut self, _fd: i32, _key: &Key<u32>, _value: &u32, _flags: u64) -> Result<(), i32> {
        match self {
            FakeSys::UpdateOk => Ok(()),
            FakeSys::Error(code) => Err(*code),
            _ => Err(EFAULT),
        }
    }

    fn map_delete_elem(&mut self, _fd: i32, _key: &Key<u32>) -> Result<(), i32> {
        match self {
            FakeSys::DeleteOk => Ok(()),
            FakeSys::Error(code) => Err(*code),
            _ => Err(EFAULT),
        }
    }
}

#[test]
fn test_wrong_key_size() {
    let map = MapData {
        obj: new_obj_map(),
        fd: None,
        pinned: false,
        btf_fd: None,
    };
    assert!(matches!(
        LpmTrie::<_, u16, u32>::new(&map),
        Err(MapError::InvalidKeySize {
            size: 6,
            expected: 8 // four bytes for prefixlen and four bytes for data.
        })
    ));
}

#[test]
fn test_wrong_value_size() {
    let map = MapData {
        obj: new_obj_map(),
        fd: None,
        pinned: false,
        btf_fd: None,
    };
    assert!(matches!(
        LpmTrie::<_, u32, u16>::new(&map),
        Err(MapError::InvalidValueSize {
            size: 2,
            expected: 4
        })
    ));
}

#[test]
fn test_try_from_wrong_map() {
    let map_data = MapData {
        obj: ObjMap::Legacy(LegacyMap {
            def: bpf_map_def {
                map_type: BPF_MAP_TYPE_PERF_EVENT_ARRAY as u32,
                key_size: 4,
                value_size: 4,
                max_entries: 1024,
                ..Default::default()
            },
            section_index: 0,
            symbol_index: 0,
            data: Vec::new(),
            kind: MapKind::Other,
        }),
        fd: None,
        btf_fd: None,
        pinned: false,
    };

    let map = BpfMap::PerfEventArray(map_data);

    assert!(matches!(
        LpmTrie::<_, u32, u32>::try_from(&map),
        Err(MapError::InvalidMapType { .. })
    ));
}

#[test]
fn test_new_not_created() {
    let mut map = MapData {
        obj: new_obj_map(),
        fd: None,
        pinned: false,
        btf_fd: None,
    };

    assert!(matches!(
        LpmTrie::<_, u32, u32>::new(&mut map),
        Err(MapError::NotCreated { .. })
    ));
}

#[test]
fn test_new_ok() {
    let mut map = MapData {
        obj: new_obj_map(),
        fd: Some(42),
        pinned: false,
        btf_fd: None,
    };

    assert!(LpmTrie::<_, u32, u32>::new(&mut map).is_ok());
}

#[test]
fn test_try_from_ok() {
    let map_data = MapData {
        obj: new_obj_map(),
        fd: Some(42),
        pinned: false,
        btf_fd: None,
    };

    let map = BpfMap::LpmTrie(map_data);
    assert!(LpmTrie::<_, u32, u32>::try_from(&map).is_ok())
}

#[test]
fn test_insert_syscall_error() {
    let mut sys = FakeSys::Error(EFAULT);

    let mut map = MapData {
        obj: new_obj_map(),
        fd: Some(42),
        pinned: false,
        btf_fd: None,
    };
    let mut trie = LpmTrie::<_, u32, u32>::new(&mut map).unwrap();
    let ipaddr: u32 = u32::from_be_bytes([8, 8, 8, 8]);
    let key = Key::new(16, ipaddr.to_be());
    assert!(matches!(
        trie.insert(&mut sys, &key, 1, 0),
        Err(MapError::SyscallError { call, code }) if call == "bpf_map_update_elem" && code == EFAULT
    ));
}

#[test]
fn test_insert_ok() {
    let mut sys = FakeSys::UpdateOk;

    let mut map = MapData {
        obj: new_obj_map(),
        fd: Some(42),
        pinned: false,
        btf_fd: None,
    };

    let mut trie = LpmTrie::<_, u32, u32>::new(&mut map).unwrap();
    let ipaddr: u32 = u32::from_be_bytes([8, 8, 8, 8]);
    let key = Key::new(16, ipaddr.to_be());
    assert!(trie.insert(&mut sys, &key, 1, 0).is_ok());
}

#[test]
fn test_remove_syscall_error() {
    let mut sys = FakeSys::Error(EFAULT);

    let mut map = MapData {
        obj: new_obj_map(),
        fd: Some(42),
        pinned: false,
        btf_fd: None,
    };
    let mut trie = LpmTrie::<_, u32, u32>::new(&mut map).unwrap();
    let ipaddr: u32 = u32::from_be_bytes([8, 8, 8, 8]);
    let key = Key::new(16, ipaddr.to_be());
    assert!(matches!(
        trie.remove(&mut sys, &key),
        Err(MapError::SyscallError { call, code }) if call == "bpf_map_delete_elem" && code == EFAULT
    ));
}

#[test]
fn test_remove_ok() {
    let mut sys = FakeSys::DeleteOk;

    let mut map = MapData {
        obj: new_obj_map(),
        fd: Some(42),
        pinned: false,
        btf_fd: None,
    };
    let mut trie = LpmTrie::<_, u32, u32>::new(&mut map).unwrap();
    let ipaddr: u32 = u32::from_be_bytes([8, 8, 8, 8]);
    let key = Key::new(16, ipaddr.to_be());
    assert!(trie.remove(&mut sys, &key).is_ok());
}

#[test]
fn test_get_syscall_error() {
    let mut sys = FakeSys::Error(EFAULT);
    let map = MapData {
        obj: new_obj_map(),
        fd: Some(42),
        pinned: false,
        btf_fd: None,
    };
    let trie = LpmTrie::<_, u32, u32>::new(&map).unwrap();
    let ipaddr: u32 = u32::from_be_bytes([8, 8, 8, 8]);
    let key = Key::new(16, ipaddr.to_be());

    assert!(matches!(
        trie.get(&mut sys, &key, 0),
        Err(MapError::SyscallError { call, code }) if call == "bpf_map_lookup_elem" && code == EFAULT
    ));
}

#[test]
fn test_get_not_found() {
    let mut sys = FakeSys::LookupNotFound;
    let map = MapData {
        obj: new_obj_map(),
        fd: Some(42),
        pinned: false,
        btf_fd: None,
    };
    let trie = LpmTrie::<_, u32, u32>::new(&map).unwrap();
    let ipaddr: u32 = u32::from_be_bytes([8, 8, 8, 8]);
    let key = Key::new(16, ipaddr.to_be());

    assert!(matches!(trie.get(&mut sys, &key, 0), Err(MapError::KeyNotFound)));
}

#[test]
fn test_get_ok() {
    let mut sys = FakeSys::LookupValue(7);
    let map = MapData {
        obj: new_obj_map(),
        fd: Some(42),
        pinned: false,
        btf_fd: None,
    };
    let trie = LpmTrie::<_, u32, u32>::new(&map).unwrap();
    let key = Key::new(16, 99u32);
    assert_eq!(trie.get(&mut sys, &key, 0).unwrap(), 7);
    assert_eq!(key.prefix_len, 16);
    assert_eq!(key.data, 99);

    let mut gone = MapData {
        obj: new_obj_map(),
        fd: Some(1),
        pinned: false,
        btf_fd: None,
    };
    let mut trie2 = LpmTrie::<_, u32, u32>::new(&mut gone).unwrap();
    assert!(trie2.insert(&mut sys, &key, 1, 0).is_err());
}

#[test]
fn test_keys_cursor() {
    let mut sys = FakeSys::TwoKeys;
    let map = MapData {
        obj: new_obj_map(),
        fd: Some(42),
        pinned: false,
        btf_fd: None,
    };
    let trie = LpmTrie::<_, u32, u32>::new(&map).unwrap();

    let mut keys = trie.keys();
    let k1 = keys.next(&mut sys).unwrap().unwrap();
    assert_eq!((k1.prefix_len, k1.data), (8, 1));
    let k2 = keys.next(&mut sys).unwrap().unwrap();
    assert_eq!((k2.prefix_len, k2.data), (16, 2));
    assert!(keys.next(&mut sys).is_none());

    // Continuing from a given key skips what precedes it.
    let mut from = trie.iter_key(Key::new(8, 1));
    let k = from.next(&mut sys).unwrap().unwrap();
    assert_eq!(k.prefix_len, 16);
    assert!(from.next(&mut sys).is_none());
}

#[test]
fn test_keys_cursor_fuses_after_error() {
    let mut sys = FakeSys::Error(EFAULT);
    let map = MapData {
        obj: new_obj_map(),
        fd: Some(42),
        pinned: false,
        btf_fd: None,
    };
    let trie = LpmTrie::<_, u32, u32>::new(&map).unwrap();
    let mut keys = trie.keys();
    assert!(matches!(
        keys.next(&mut sys),
        Some(Err(MapError::SyscallError { call, code })) if call == "bpf_map_get_next_key" && code == EFAULT
    ));
    // After the error the cursor is exhausted for good.
    assert!(keys.next(&mut sys).is_none());

    // A handle without a descriptor is refused before any kernel call.
    let gone = MapData {
        obj: new_obj_map(),
        fd: None,
        pinned: false,
        btf_fd: None,
    };
    let mut keys = LpmTrieKeys::new(&gone, Key::new(8, 1u32));
    assert!(matches!(keys.next(&mut sys), Some(Err(MapError::NotCreated))));
    assert!(keys.next(&mut sys).is_none());
}
