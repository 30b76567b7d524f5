use machine_sim::loader::load_words;
use machine_sim::mem::Memory;
use machine_sim::reg::RegisterFile;
use machine_sim::status::MachineError;

#[test]
fn memory_read_rejects_out_of_range() {
    let mem = Memory::new(16);
    assert_eq!(mem.capacity(), 16);
    assert_eq!(mem.read(15), Ok(0));
    assert_eq!(mem.read(16), Err(MachineError::OutOfRangeAddress));
    assert_eq!(mem.read(usize::MAX), Err(MachineError::OutOfRangeAddress));
}

#[test]
fn memory_write_rejects_out_of_range() {
    let mut mem = Memory::new(16);
    assert_eq!(mem.write(16, 1), Err(MachineError::OutOfRangeAddress));
    assert_eq!(mem.write(15, 7), Ok(()));
    assert_eq!(mem.read(15), Ok(7));
    // the failed write changed nothing
    assert_eq!(mem.read(0), Ok(0));
}

#[test]
fn memory_starts_zeroed() {
    let mem = Memory::new(8);
    for a in 0..8 {
        assert_eq!(mem.read(a), Ok(0));
    }
}

#[test]
fn register_file_rejects_bad_id() {
    let mut rf = RegisterFile::new();
    assert_eq!(rf.get(16), Err(MachineError::InvalidRegisterId));
    assert_eq!(rf.get(255), Err(MachineError::InvalidRegisterId));
    assert_eq!(rf.set(16, 1), Err(MachineError::InvalidRegisterId));
    assert_eq!(rf.set(3, 9), Ok(()));
    assert_eq!(rf.get(3), Ok(9));
    assert_eq!(rf.get(15), Ok(0));
}

#[test]
fn load_words_copies_at_base() {
    let mut store: Vec<u16> = vec![0; 8];
    let prog: Vec<u16> = vec![1, 2, 3];
    assert_eq!(load_words(&mut store, &prog, 2), Ok(()));
    assert_eq!(store, vec![0, 0, 1, 2, 3, 0, 0, 0]);
}

#[test]
fn load_words_rejects_program_too_large() {
    let mut store: Vec<u16> = vec![9; 4];
    let prog: Vec<u16> = vec![1, 2, 3];
    assert_eq!(
        load_words(&mut store, &prog, 2),
        Err(MachineError::ProgramTooLarge)
    );
    assert_eq!(
        load_words(&mut store, &prog, 5),
        Err(MachineError::ProgramTooLarge)
    );
    // the failed loads changed nothing
    assert_eq!(store, vec![9, 9, 9, 9]);
}
