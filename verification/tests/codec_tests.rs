use guest_bridge::codec::{
    allocation_request, lift_string, pointer_address, read_string_wasm, returned_pointer,
    write_string, STRING_CLASS_ID,
};
use guest_bridge::env::Env;
use guest_bridge::error::{HostError, Slot};
use wasmer::sys::BaseTunables;
use wasmer::{Engine, Memory, MemoryType, NativeEngineExt, Pages, Store};

/// A store whose memories take only the address space they need.
fn small_store() -> Store {
    let mut engine = Engine::default();
    engine.set_tunables(BaseTunables {
        static_memory_bound: Pages(0),
        static_memory_offset_guard_size: 0,
        dynamic_memory_offset_guard_size: 0x1_0000,
    });
    Store::new(engine)
}


fn one_page(store: &mut Store) -> Memory {
    Memory::new(store, MemoryType::new(1, None, false)).unwrap()
}

/// Header and payload of "hi" with the payload at 8.
fn put_hi(memory: &Memory, store: &Store) {
    memory
        .view(store)
        .write(4, &[4, 0, 0, 0, 0x68, 0, 0x69, 0])
        .unwrap();
}

#[test]
fn pointer_is_read_as_unsigned() {
    assert_eq!(pointer_address(0), 0);
    assert_eq!(pointer_address(1024), 1024);
    assert_eq!(pointer_address(i32::MAX), 0x7FFF_FFFF);
    assert_eq!(pointer_address(-1), 0xFFFF_FFFF);
    assert_eq!(pointer_address(i32::MIN), 0x8000_0000);
}

#[test]
fn string_is_read_from_header_and_payload() {
    let mut store = small_store();
    let memory = one_page(&mut store);
    put_hi(&memory, &store);
    let view = memory.view(&store);
    assert_eq!(read_string_wasm(&view, 8), Ok(String::from("hi")));
}

#[test]
fn header_is_read_as_four_bytes() {
    // 300 code units: the length 600 does not fit in the header's first byte.
    let mut store = small_store();
    let memory = one_page(&mut store);
    let text: String = "x".repeat(300);
    let mut bytes: Vec<u8> = vec![0x58, 0x02, 0, 0];
    for _ in 0..300 {
        bytes.push(0x78);
        bytes.push(0);
    }
    memory.view(&store).write(96, &bytes).unwrap();
    let view = memory.view(&store);
    assert_eq!(read_string_wasm(&view, 100), Ok(text));
}

#[test]
fn empty_string_is_read() {
    let mut store = small_store();
    let memory = one_page(&mut store);
    let view = memory.view(&store);
    // A fresh memory is all zero: every header says "no bytes".
    assert_eq!(read_string_wasm(&view, 4), Ok(String::new()));
    // The payload may start where the memory ends.
    assert_eq!(read_string_wasm(&view, 65536), Ok(String::new()));
}

#[test]
fn surrogate_pair_is_read_as_one_char() {
    let mut store = small_store();
    let memory = one_page(&mut store);
    memory
        .view(&store)
        .write(16, &[4, 0, 0, 0, 0x3D, 0xD8, 0x00, 0xDE])
        .unwrap();
    let view = memory.view(&store);
    assert_eq!(read_string_wasm(&view, 20), Ok(String::from("\u{1F600}")));
}

#[test]
fn unpaired_surrogate_is_replaced() {
    let mut store = small_store();
    let memory = one_page(&mut store);
    memory
        .view(&store)
        .write(16, &[4, 0, 0, 0, 0x3D, 0xD8, 0x41, 0x00])
        .unwrap();
    let view = memory.view(&store);
    assert_eq!(read_string_wasm(&view, 20), Ok(String::from("\u{FFFD}A")));
}

#[test]
fn odd_length_drops_the_last_byte() {
    let mut store = small_store();
    let memory = one_page(&mut store);
    memory
        .view(&store)
        .write(16, &[3, 0, 0, 0, 0x68, 0, 0x69, 0])
        .unwrap();
    let view = memory.view(&store);
    assert_eq!(read_string_wasm(&view, 20), Ok(String::from("h")));
}

#[test]
fn payload_past_the_end_is_refused() {
    let mut store = small_store();
    let memory = one_page(&mut store);
    // Header at 65528 claims 8 bytes; only 4 are left after 65532.
    memory.view(&store).write(65528, &[8, 0, 0, 0]).unwrap();
    let view = memory.view(&store);
    assert_eq!(read_string_wasm(&view, 65532), Err(HostError::OutOfBounds));
    // With 4 bytes claimed the string just fits.
    memory.view(&store).write(65528, &[4, 0, 0, 0]).unwrap();
    let view = memory.view(&store);
    assert_eq!(read_string_wasm(&view, 65532), Ok(String::from("\u{0}\u{0}")));
}

#[test]
fn huge_length_is_refused() {
    let mut store = small_store();
    let memory = one_page(&mut store);
    memory
        .view(&store)
        .write(0, &[0xFF, 0xFF, 0xFF, 0xFF])
        .unwrap();
    let view = memory.view(&store);
    assert_eq!(read_string_wasm(&view, 4), Err(HostError::OutOfBounds));
}

#[test]
fn pointer_without_room_for_a_header_is_refused() {
    let mut store = small_store();
    let memory = one_page(&mut store);
    let view = memory.view(&store);
    assert_eq!(read_string_wasm(&view, 0), Err(HostError::OutOfBounds));
    assert_eq!(read_string_wasm(&view, 3), Err(HostError::OutOfBounds));
}

#[test]
fn pointer_past_the_end_is_refused() {
    let mut store = small_store();
    let memory = one_page(&mut store);
    let view = memory.view(&store);
    assert_eq!(read_string_wasm(&view, 65537), Err(HostError::OutOfBounds));
    assert_eq!(read_string_wasm(&view, -1), Err(HostError::OutOfBounds));
    assert_eq!(read_string_wasm(&view, i32::MIN), Err(HostError::OutOfBounds));
}

#[test]
fn payload_is_written_as_utf16_little_endian() {
    let mut store = small_store();
    let memory = one_page(&mut store);
    memory.view(&store).write(28, &[9, 9, 9, 9]).unwrap();
    memory.view(&store).write(38, &[7, 7]).unwrap();
    assert_eq!(write_string(&memory, &mut store, 32, "h\u{1F600}"), Ok(()));
    let mut around = [0u8; 12];
    memory.view(&store).read(28, &mut around).unwrap();
    // The four bytes in front and the two behind are untouched.
    assert_eq!(around, [9, 9, 9, 9, 0x68, 0x00, 0x3D, 0xD8, 0x00, 0xDE, 7, 7]);
}

#[test]
fn payload_that_does_not_fit_is_refused_and_nothing_is_written() {
    let mut store = small_store();
    let memory = one_page(&mut store);
    assert_eq!(
        write_string(&memory, &mut store, 65534, "hi"),
        Err(HostError::OutOfBounds)
    );
    let mut last = [1u8; 2];
    memory.view(&store).read(65534, &mut last).unwrap();
    assert_eq!(last, [0, 0]);
    assert_eq!(write_string(&memory, &mut store, 65532, "hi"), Ok(()));
    assert_eq!(write_string(&memory, &mut store, -4, "hi"), Err(HostError::OutOfBounds));
    assert_eq!(write_string(&memory, &mut store, 65536, ""), Ok(()));
}

#[test]
fn payload_for_a_memory_of_another_store_is_refused() {
    let mut home = small_store();
    let mut other = small_store();
    let memory = one_page(&mut home);
    assert_eq!(
        write_string(&memory, &mut other, 32, "hi"),
        Err(HostError::ForeignStore)
    );
}

#[test]
fn written_text_reads_back_under_its_header() {
    let mut store = small_store();
    let memory = one_page(&mut store);
    for text in ["", "hello", "\u{e9}\u{20ac}", "\u{1F600} \u{10FFFF}", "{\"name\":\"John\", \"age\":30}"] {
        let byte_len = (text.encode_utf16().count() * 2) as u32;
        memory
            .view(&store)
            .write(200, &byte_len.to_le_bytes())
            .unwrap();
        assert_eq!(write_string(&memory, &mut store, 204, text), Ok(()));
        let view = memory.view(&store);
        assert_eq!(read_string_wasm(&view, 204), Ok(String::from(text)));
    }
}

#[test]
fn allocator_is_asked_for_the_byte_length_and_the_string_class() {
    assert_eq!(STRING_CLASS_ID, 1);
    assert_eq!(allocation_request(0), Ok(vec![0, 1]));
    assert_eq!(allocation_request(25), Ok(vec![50, 1]));
    assert_eq!(allocation_request(0x3FFF_FFFF), Ok(vec![0x7FFF_FFFE, 1]));
}

#[test]
fn byte_length_beyond_i32_is_refused() {
    assert_eq!(allocation_request(0x4000_0000), Err(HostError::TooLong));
    assert_eq!(allocation_request(usize::MAX), Err(HostError::TooLong));
}

#[test]
fn returned_pointer_is_the_first_result() {
    assert_eq!(returned_pointer(&vec![Some(1028)]), Ok(1028));
    assert_eq!(returned_pointer(&vec![Some(-8), None]), Ok(-8));
    assert_eq!(returned_pointer(&vec![Some(0), Some(5)]), Ok(0));
}

#[test]
fn missing_or_mistyped_result_is_refused() {
    assert_eq!(returned_pointer(&vec![]), Err(HostError::MissingPointer));
    assert_eq!(returned_pointer(&vec![None]), Err(HostError::MissingPointer));
    assert_eq!(returned_pointer(&vec![None, Some(4)]), Err(HostError::MissingPointer));
}

#[test]
fn lift_reads_from_the_environments_memory() {
    let mut store = small_store();
    let memory = one_page(&mut store);
    put_hi(&memory, &store);
    let mut env = Env::new();
    assert_eq!(
        lift_string(&env, &store, 8),
        Err(HostError::NotReady(Slot::Memory))
    );
    env.set_memory(memory);
    assert_eq!(lift_string(&env, &store, 8), Ok(String::from("hi")));
    assert_eq!(lift_string(&env, &store, 2), Err(HostError::OutOfBounds));
    let other = small_store();
    assert_eq!(lift_string(&env, &other, 8), Err(HostError::ForeignStore));
}
