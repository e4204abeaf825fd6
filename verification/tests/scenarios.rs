use typemap::Assoc;
use typemap::TypeMap;

struct TagA;

impl Assoc<u32> for TagA {
    fn key_id() -> u64 {
        1
    }

    fn key_id_exec() -> u64 {
        1
    }
}

struct TagB;

impl Assoc<String> for TagB {
    fn key_id() -> u64 {
        2
    }

    fn key_id_exec() -> u64 {
        2
    }
}

struct Counter;

impl Assoc<i64> for Counter {
    fn key_id() -> u64 {
        3
    }

    fn key_id_exec() -> u64 {
        3
    }
}

struct Missing;

impl Assoc<i32> for Missing {
    fn key_id() -> u64 {
        4
    }

    fn key_id_exec() -> u64 {
        4
    }
}

struct Buffer;

impl Assoc<Vec<u8>> for Buffer {
    fn key_id() -> u64 {
        5
    }

    fn key_id_exec() -> u64 {
        5
    }
}

// A tag type whose instances carry data; the map must ignore it.
struct Slot(u8);

impl Assoc<u32> for Slot {
    fn key_id() -> u64 {
        6
    }

    fn key_id_exec() -> u64 {
        6
    }
}

// Two tags declared in conflict: the same key identity with different
// value types. The map must fail closed and report absence.
struct ClashFirst;

impl Assoc<u32> for ClashFirst {
    fn key_id() -> u64 {
        9
    }

    fn key_id_exec() -> u64 {
        9
    }
}

struct ClashSecond;

impl Assoc<String> for ClashSecond {
    fn key_id() -> u64 {
        9
    }

    fn key_id_exec() -> u64 {
        9
    }
}

#[test]
fn two_tags_are_independent() {
    let mut map = TypeMap::new();
    map.insert(TagA, 7u32);
    map.insert(TagB, String::from("hi"));
    assert_eq!(*map.find(TagA).unwrap(), 7u32);
    assert_eq!(*map.find(TagB).unwrap(), String::from("hi"));
    assert_eq!(map.len(), 2);
}

#[test]
fn overwrite_keeps_one_entry() {
    let mut map = TypeMap::new();
    let had = map.insert(Counter, 1i64);
    assert!(!had);
    assert_eq!(map.len(), 1);
    let had = map.insert(Counter, 2i64);
    assert!(had);
    assert_eq!(*map.find(Counter).unwrap(), 2i64);
    assert_eq!(map.len(), 1);
}

#[test]
fn empty_map_reports_absence() {
    let mut map = TypeMap::new();
    assert!(map.find(Missing).is_none());
    assert!(!map.remove(Missing));
    assert!(!map.contains(Missing));
    assert_eq!(map.len(), 0);
}

#[test]
fn mutation_is_visible_through_find() {
    let mut map = TypeMap::new();
    map.insert(Buffer, vec![1u8, 2u8, 3u8]);
    map.find_mut(Buffer).unwrap().push(4u8);
    assert_eq!(*map.find(Buffer).unwrap(), vec![1u8, 2u8, 3u8, 4u8]);
}

#[test]
fn find_mut_on_absent_is_none() {
    let mut map = TypeMap::new();
    assert!(map.find_mut(Buffer).is_none());
}

#[test]
fn remove_leaves_nothing_behind() {
    let mut map = TypeMap::new();
    map.insert(TagA, 7u32);
    assert!(map.contains(TagA));
    assert!(map.remove(TagA));
    assert!(!map.contains(TagA));
    assert!(map.find(TagA).is_none());
    assert_eq!(map.len(), 0);
}

#[test]
fn clear_empties_the_map() {
    let mut map = TypeMap::new();
    map.insert(TagA, 7u32);
    map.insert(TagB, String::from("hi"));
    map.clear();
    assert_eq!(map.len(), 0);
    assert!(!map.contains(TagA));
    assert!(!map.contains(TagB));
    assert!(map.find(TagA).is_none());
}

#[test]
fn size_counts_distinct_keys() {
    let mut map = TypeMap::new();
    assert_eq!(map.len(), 0);
    map.insert(TagA, 7u32);
    assert_eq!(map.len(), 1);
    map.insert(TagB, String::from("hi"));
    assert_eq!(map.len(), 2);
    map.insert(TagA, 8u32);
    assert_eq!(map.len(), 2);
    map.remove(TagA);
    assert_eq!(map.len(), 1);
    map.remove(TagA);
    assert_eq!(map.len(), 1);
}

#[test]
fn tag_instance_value_is_ignored() {
    let mut map = TypeMap::new();
    map.insert(Slot(1), 5u32);
    assert_eq!(*map.find(Slot(2)).unwrap(), 5u32);
    assert!(map.contains(Slot(3)));
}

#[test]
fn conflicting_declarations_fail_closed() {
    let mut map = TypeMap::new();
    map.insert(ClashFirst, 7u32);
    assert!(map.find(ClashSecond).is_none());
    assert!(map.find_mut(ClashSecond).is_none());
    assert!(map.contains(ClashSecond));
    assert_eq!(*map.find(ClashFirst).unwrap(), 7u32);
}
