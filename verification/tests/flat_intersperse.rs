use termania::flat_intersperse::FlatIntersperse;

fn spaced(source: &[u32], separator: &[u32]) -> Vec<u32> {
    let sequence = FlatIntersperse::new(source, separator.iter().collect());
    sequence.collect().into_iter().copied().collect()
}

#[test]
fn separator_stands_between_items_only() {
    assert_eq!(spaced(&[1, 2, 3], &[0, 9]), vec![1, 0, 9, 2, 0, 9, 3]);
}

#[test]
fn empty_source_gives_nothing() {
    assert_eq!(spaced(&[], &[]), Vec::<u32>::new());
    assert_eq!(spaced(&[], &[7]), Vec::<u32>::new());
    assert_eq!(spaced(&[], &[7, 8, 9]), Vec::<u32>::new());
}

#[test]
fn empty_separator_gives_the_source() {
    assert_eq!(spaced(&[4], &[]), vec![4]);
    assert_eq!(spaced(&[4, 5, 6, 7], &[]), vec![4, 5, 6, 7]);
}

#[test]
fn single_item_has_no_separator() {
    assert_eq!(spaced(&[4], &[0, 0, 0]), vec![4]);
}

#[test]
fn length_is_items_plus_separators_between() {
    for items in 0..6usize {
        for run in 0..4usize {
            let source: Vec<u32> = (0..items as u32).collect();
            let separator: Vec<u32> = vec![100; run];
            let expected = items + items.saturating_sub(1) * run;
            assert_eq!(spaced(&source, &separator).len(), expected);
        }
    }
}

#[test]
fn each_block_opens_with_its_item() {
    let source: Vec<u32> = vec![10, 11, 12, 13, 14];
    let separator: Vec<u32> = vec![1, 2, 3];
    let out = spaced(&source, &separator);
    assert_eq!(out.len(), 17);
    for k in 0..source.len() {
        assert_eq!(out[k * 4], source[k]);
    }
    for k in 0..source.len() - 1 {
        assert_eq!(&out[k * 4 + 1..k * 4 + 4], &separator[..]);
    }
}

#[test]
fn next_hands_out_one_element_a_pull() {
    let source = [1u32, 2];
    let zero = 0u32;
    let mut sequence = FlatIntersperse::new(&source, vec![&zero]);
    assert_eq!(sequence.next(), Some(&1));
    assert_eq!(sequence.next(), Some(&0));
    assert_eq!(sequence.next(), Some(&2));
    assert_eq!(sequence.next(), None);
}

#[test]
fn next_stays_at_the_end() {
    let source = [1u32];
    let zero = 0u32;
    let mut sequence = FlatIntersperse::new(&source, vec![&zero, &zero]);
    assert_eq!(sequence.next(), Some(&1));
    assert_eq!(sequence.next(), None);
    assert_eq!(sequence.next(), None);
    assert_eq!(sequence.collect(), Vec::<&u32>::new());
}

#[test]
fn collect_gives_what_is_left() {
    let source = [1u32, 2, 3];
    let zero = 0u32;
    let mut sequence = FlatIntersperse::new(&source, vec![&zero]);
    assert_eq!(sequence.next(), Some(&1));
    assert_eq!(sequence.next(), Some(&0));
    assert_eq!(sequence.collect(), vec![&2, &0, &3]);
}

#[test]
fn elements_are_the_sources_own() {
    let source = [String::from("a"), String::from("b")];
    let dash = String::from("-");
    let sequence = FlatIntersperse::new(&source, vec![&dash]);
    let out = sequence.collect();
    assert!(std::ptr::eq(out[0], &source[0]));
    assert!(std::ptr::eq(out[1], &dash));
    assert!(std::ptr::eq(out[2], &source[1]));
}
