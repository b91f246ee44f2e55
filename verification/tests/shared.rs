use vga_text::screen::{VGA_HEIGHT, VGA_WIDTH};
use vga_text::shared::{write_held, write_shared, FaultWriter};
use vga_text::writer::{Buffer, Writer};

fn row_text(shown: &Buffer, row: usize) -> String {
    (0..VGA_WIDTH).map(|column| shown.cell(row, column).unwrap().glyph() as char).collect()
}

fn padded(text: &str) -> String {
    format!("{:<80}", text)
}

#[test]
fn write_shared_returns_the_display_after_the_write() {
    let shared = spin::Mutex::new(Writer::new());
    let shown = write_shared(&shared, "Hello");
    assert_eq!(row_text(&shown, 24), padded("Hello"));
    for row in 0..VGA_HEIGHT - 1 {
        assert_eq!(row_text(&shown, row), padded(""));
    }
    assert_eq!(shown.cell(24, 0).unwrap().bits(), 0x0e48);
}

#[test]
fn write_shared_writes_to_the_writer_behind_the_lock() {
    let shared = spin::Mutex::new(Writer::new());
    write_shared(&shared, "one\n");
    let shown = write_shared(&shared, "two");
    assert_eq!(row_text(&shown, 23), padded("one"));
    assert_eq!(row_text(&shown, 24), padded("two"));
    let writer = shared.lock();
    assert_eq!(writer.column_position(), 3);
    assert_eq!(row_text(writer.buffer(), 23), padded("one"));
    assert_eq!(row_text(writer.buffer(), 24), padded("two"));
}

#[test]
fn write_shared_lets_the_lock_go() {
    let shared = spin::Mutex::new(Writer::new());
    write_shared(&shared, "a");
    assert!(!shared.is_locked());
    assert!(shared.try_lock().is_some());
}

#[test]
fn fault_writer_goes_through_a_free_lock() {
    let shared = spin::Mutex::new(Writer::new());
    write_shared(&shared, "before\n");
    let mut fault = FaultWriter::new();
    assert!(!fault.has_taken_over());
    let shown = fault.write_string(&shared, "panicked");
    assert!(!fault.has_taken_over());
    assert_eq!(row_text(&shown, 23), padded("before"));
    assert_eq!(row_text(&shown, 24), padded("panicked"));
    assert!(!shared.is_locked());
    let again = fault.write_string(&shared, " at line 3");
    assert!(!fault.has_taken_over());
    assert_eq!(row_text(&again, 24), padded("panicked at line 3"));
    assert_eq!(shared.lock().column_position(), 18);
}

#[test]
fn fault_writer_takes_over_where_the_lock_is_taken() {
    let shared = spin::Mutex::new(Writer::new());
    write_shared(&shared, "before\n");
    let held = shared.lock();
    let mut fault = FaultWriter::new();
    let shown = fault.write_string(&shared, "panicked");
    assert!(fault.has_taken_over());
    assert_eq!(row_text(&shown, 24), padded("panicked"));
    for row in 0..VGA_HEIGHT - 1 {
        assert_eq!(row_text(&shown, row), padded(""));
    }
    assert_eq!(held.column_position(), 0);
    assert_eq!(row_text(held.buffer(), 23), padded("before"));
    assert_eq!(row_text(held.buffer(), 24), padded(""));
}

#[test]
fn fault_writer_keeps_the_display_once_taken_over() {
    let shared = spin::Mutex::new(Writer::new());
    let held = shared.lock();
    let mut fault = FaultWriter::new();
    fault.write_string(&shared, "one\n");
    drop(held);
    assert!(!shared.is_locked());
    let shown = fault.write_string(&shared, "two");
    assert!(fault.has_taken_over());
    assert_eq!(row_text(&shown, 23), padded("one"));
    assert_eq!(row_text(&shown, 24), padded("two"));
    assert!(!shared.is_locked());
    assert_eq!(shared.lock().column_position(), 0);
}

#[test]
fn fault_writer_write_with_follows_the_attempt() {
    let shared = spin::Mutex::new(Writer::new());
    write_shared(&shared, "ab");
    let mut through = FaultWriter::new();
    let shown = through.write_with(shared.try_lock(), "cd");
    assert!(!through.has_taken_over());
    assert_eq!(row_text(&shown, 24), padded("abcd"));
    assert!(!shared.is_locked());

    let mut alone = FaultWriter::new();
    let shown = alone.write_with(None, "ef");
    assert!(alone.has_taken_over());
    assert_eq!(row_text(&shown, 24), padded("ef"));
    let shown = alone.write_with(shared.try_lock(), "gh");
    assert!(alone.has_taken_over());
    assert_eq!(row_text(&shown, 24), padded("efgh"));
    assert!(!shared.is_locked());
    assert_eq!(shared.lock().column_position(), 4);
}

#[test]
fn write_held_writes_to_the_writer_behind_the_guard() {
    let shared = spin::Mutex::new(Writer::new());
    let mut guard = shared.lock();
    guard.write_string("be");
    let shown = write_held(&mut guard, "held");
    assert_eq!(row_text(&shown, 24), padded("beheld"));
    assert_eq!(guard.column_position(), 6);
    assert_eq!(row_text(guard.buffer(), 24), padded("beheld"));
    assert!(shared.is_locked());
    drop(guard);
    assert!(!shared.is_locked());
    assert_eq!(shared.lock().column_position(), 6);
}

#[test]
fn write_held_returns_a_copy_of_the_display() {
    let shared = spin::Mutex::new(Writer::new());
    let mut guard = shared.lock();
    let shown = write_held(&mut guard, "one");
    write_held(&mut guard, "\ntwo");
    assert_eq!(row_text(&shown, 24), padded("one"));
    assert_eq!(row_text(guard.buffer(), 23), padded("one"));
    assert_eq!(row_text(guard.buffer(), 24), padded("two"));
}
