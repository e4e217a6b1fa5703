use kirill::order::sort_strings;

fn strings(items: &[&str]) -> Vec<String> {
    items.iter().map(|s| s.to_string()).collect()
}

#[test]
fn sort_strings_puts_in_order() {
    let sorted = sort_strings(strings(&["/b/x.json", "/a/y.json", "/a/x.json", "/a.json"]));
    assert_eq!(sorted, strings(&["/a.json", "/a/x.json", "/a/y.json", "/b/x.json"]));
}

#[test]
fn sort_strings_keeps_duplicates() {
    let sorted = sort_strings(strings(&["b", "a", "b", "a", "a"]));
    assert_eq!(sorted, strings(&["a", "a", "a", "b", "b"]));
}

#[test]
fn sort_strings_handles_short_lists() {
    assert_eq!(sort_strings(Vec::new()), Vec::<String>::new());
    assert_eq!(sort_strings(strings(&["x"])), strings(&["x"]));
}

#[test]
fn sort_strings_agrees_with_the_standard_sort() {
    let mut items = Vec::new();
    let mut seed: u32 = 12345;
    for _ in 0..500 {
        let mut s = String::new();
        seed = seed.wrapping_mul(1103515245).wrapping_add(12345);
        let len = (seed >> 16) % 6;
        for _ in 0..len {
            seed = seed.wrapping_mul(1103515245).wrapping_add(12345);
            let c = ['a', 'b', '/', '.', 'é', 'Z', '日', '\u{10400}'][((seed >> 16) % 8) as usize];
            s.push(c);
        }
        items.push(s);
    }
    let mut expected = items.clone();
    expected.sort();
    assert_eq!(sort_strings(items), expected);
}

#[test]
fn sorting_again_changes_nothing() {
    let once = sort_strings(strings(&["c", "a", "b", "a"]));
    let twice = sort_strings(once.clone());
    assert_eq!(once, twice);
}
