use dir_nav::filter::{list, Entry, FilterConfig};

fn dir(name: &str) -> Entry {
    Entry::new(name.to_string(), true)
}

fn file(name: &str) -> Entry {
    Entry::new(name.to_string(), false)
}

fn names(v: &[Entry]) -> Vec<String> {
    v.iter().map(|e| e.name.clone()).collect()
}

fn mixed() -> Vec<Entry> {
    vec![dir("b"), file("f1"), file(".hidden"), dir(".git"), file("notes.txt")]
}

#[test]
fn default_filters_hide_dotfiles_and_keep_files() {
    let r = list(&mixed(), FilterConfig::initial());
    assert_eq!(names(&r), vec!["b", "f1", "notes.txt"]);
}

#[test]
fn show_hidden_keeps_everything() {
    let f = FilterConfig { show_hidden: true, show_files: true };
    let r = list(&mixed(), f);
    assert_eq!(names(&r), vec!["b", "f1", ".hidden", ".git", "notes.txt"]);
}

#[test]
fn directories_only_keeps_directories() {
    let f = FilterConfig { show_hidden: false, show_files: false };
    let r = list(&mixed(), f);
    assert_eq!(names(&r), vec!["b"]);
}

#[test]
fn hidden_directories_only() {
    let f = FilterConfig { show_hidden: true, show_files: false };
    let r = list(&mixed(), f);
    assert_eq!(names(&r), vec!["b", ".git"]);
    assert!(r.iter().all(|e| e.is_directory));
}

#[test]
fn empty_directory_lists_nothing() {
    let r = list(&Vec::new(), FilterConfig { show_hidden: true, show_files: true });
    assert!(r.is_empty());
}

#[test]
fn listing_twice_in_another_order_has_same_members() {
    let f = FilterConfig::initial();
    let first = list(&mixed(), f);
    let mut reordered = mixed();
    reordered.reverse();
    let second = list(&reordered, f);
    assert_eq!(first.len(), second.len());
    let mut a = names(&first);
    let mut b = names(&second);
    a.sort();
    b.sort();
    assert_eq!(a, b);
}

#[test]
fn hidden_is_a_leading_dot() {
    assert!(file(".hidden").is_hidden());
    assert!(dir(".").is_hidden());
    assert!(!file("a.b").is_hidden());
    assert!(!file("").is_hidden());
    assert!(!file("x.").is_hidden());
}

#[test]
fn admitted_by_combines_both_filters() {
    let none = FilterConfig { show_hidden: false, show_files: false };
    assert!(dir("b").admitted_by(none));
    assert!(!file("f").admitted_by(none));
    assert!(!dir(".d").admitted_by(none));
    let all = FilterConfig { show_hidden: true, show_files: true };
    assert!(file(".f").admitted_by(all));
}

#[test]
fn toggles_flip_one_filter() {
    let f = FilterConfig::initial();
    assert_eq!(f, FilterConfig { show_hidden: false, show_files: true });
    assert_eq!(f.toggled_hidden(), FilterConfig { show_hidden: true, show_files: true });
    assert_eq!(f.toggled_files(), FilterConfig { show_hidden: false, show_files: false });
    assert_eq!(f.toggled_hidden().toggled_hidden(), f);
}

#[test]
fn duplicate_copies_fields() {
    let e = file(".x");
    let d = e.duplicate();
    assert_eq!(d.name, ".x");
    assert!(!d.is_directory);
}
