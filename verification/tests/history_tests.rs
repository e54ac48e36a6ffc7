use nviwatch::history::HistorySeries;

#[test]
fn history_starts_empty() {
    let s = HistorySeries::new();
    assert_eq!(s.len(), 0);
    assert!(s.values().is_empty());
}

#[test]
fn history_keeps_arrival_order() {
    let mut s = HistorySeries::new();
    s.append(1);
    s.append(2);
    s.append(3);
    assert_eq!(s.values(), vec![1u64, 2, 3]);
}

#[test]
fn history_length_is_min_of_ticks_and_capacity() {
    let mut s = HistorySeries::new();
    for t in 0..45u64 {
        s.append(t);
        assert_eq!(s.len() as u64, t + 1);
    }
    for t in 45..200u64 {
        s.append(t);
        let expected = if t + 1 <= 60 { t + 1 } else { 60 };
        assert_eq!(s.len() as u64, expected);
    }
}

#[test]
fn history_evicts_oldest_first() {
    let mut s = HistorySeries::new();
    for t in 0..70u64 {
        s.append(t);
    }
    assert_eq!(s.len(), 60);
    let expected: Vec<u64> = (10..70).collect();
    assert_eq!(s.values(), expected);
}

#[test]
fn history_exactly_at_capacity() {
    let mut s = HistorySeries::new();
    for t in 0..60u64 {
        s.append(t);
    }
    assert_eq!(s.len(), 60);
    assert_eq!(s.values()[0], 0);
    assert_eq!(s.values()[59], 59);
    s.append(60);
    assert_eq!(s.len(), 60);
    assert_eq!(s.values()[0], 1);
    assert_eq!(s.values()[59], 60);
}
