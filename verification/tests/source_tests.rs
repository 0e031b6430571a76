use std::path::PathBuf;

use iris::module::ModuleId;
use iris::source::{LineIndex, SourceFile, SourceFileId};

#[test]
fn line_col_of_offsets() {
    let f = SourceFile::new(SourceFileId::new(1), PathBuf::from("a.iris"), "ab\ncd\n\nef".to_string());
    assert_eq!(f.line_col(0), (0, 0));
    assert_eq!(f.line_col(1), (0, 1));
    assert_eq!(f.line_col(2), (0, 2));
    assert_eq!(f.line_col(3), (1, 0));
    assert_eq!(f.line_col(5), (1, 2));
    assert_eq!(f.line_col(6), (2, 0));
    assert_eq!(f.line_col(7), (3, 0));
    assert_eq!(f.line_col(9), (3, 2));
    assert_eq!(f.line_col(100), (3, 93));
}

#[test]
fn line_ranges() {
    let f = SourceFile::new(SourceFileId::new(1), PathBuf::from("a.iris"), "ab\ncd\n\nef".to_string());
    assert_eq!(f.line_range(0), Some(0..3));
    assert_eq!(f.line_range(1), Some(3..6));
    assert_eq!(f.line_range(2), Some(6..7));
    assert_eq!(f.line_range(3), Some(7..9));
    assert_eq!(f.line_range(4), None);
}

#[test]
fn line_index_directly() {
    let li = LineIndex::new("x\ny");
    assert_eq!(li.line_col(2), (1, 0));
    assert_eq!(li.line_range(0, 3), Some(0..2));
    assert_eq!(li.line_range(1, 3), Some(2..3));
    assert_eq!(li.line_range(2, 3), None);
}

#[test]
fn multibyte_lines_count_bytes() {
    let f = SourceFile::new(SourceFileId::new(1), PathBuf::from("a.iris"), "é\nb".to_string());
    assert_eq!(f.line_col(3), (1, 0));
    assert_eq!(f.line_range(0), Some(0..3));
}

#[test]
fn file_accessors() {
    let f = SourceFile::new(SourceFileId::new(4), PathBuf::from("dir/m.iris"), "text".to_string());
    let g = SourceFile::new(SourceFileId::new(5), PathBuf::from("other.iris"), "text".to_string());
    assert_eq!(f.id(), SourceFileId::new(4));
    assert_eq!(f.path(), &PathBuf::from("dir/m.iris"));
    assert_eq!(f.text(), "text");
    assert_eq!(f.hash(), g.hash());
}

#[test]
fn identifiers() {
    let id = SourceFileId::new(12);
    assert_eq!(id.as_u32(), 12);
    assert!(!id.is_invalid());
    assert!(SourceFileId::invalid().is_invalid());
    assert_eq!(SourceFileId::invalid().as_u32(), u32::MAX);
    let m = ModuleId::from_file(&id);
    assert_eq!(m, ModuleId::new(12));
    assert_eq!(m.as_u32(), 12);
    assert!(ModuleId::invalid().is_invalid());
    assert!(!m.is_invalid());
}
