use nanocount::{report_rows, MAX_BUDGET, zero_counts, GuideRow, GuideStats, Guides, PatternProcessor, ReportError};

fn stats(g1: usize, g2: usize, paired: usize, unpaired: usize) -> GuideStats {
    GuideStats { count_g1: g1, count_g2: g2, count_paired: paired, count_unpaired: unpaired }
}

fn row(c: &str, a: &str, g1: &str, g2: &str) -> GuideRow {
    GuideRow { construct: c.to_string(), alias: a.to_string(), g1: g1.to_string(), g2: g2.to_string() }
}

fn one_guide(g1: &str, g2: &str) -> Guides {
    Guides::from_rows(&vec![row("c1", "a1", g1, g2)])
}

#[test]
fn record_only_first_probe() {
    let mut s = stats(2, 3, 4, 5);
    s.record(true, false);
    assert_eq!(s, stats(3, 3, 4, 6));
}

#[test]
fn record_only_second_probe() {
    let mut s = stats(2, 3, 4, 5);
    s.record(false, true);
    assert_eq!(s, stats(2, 4, 4, 6));
}

#[test]
fn record_both_probes() {
    let mut s = stats(2, 3, 4, 5);
    s.record(true, true);
    assert_eq!(s, stats(3, 4, 5, 5));
}

#[test]
fn record_no_probe() {
    let mut s = stats(2, 3, 4, 5);
    s.record(false, false);
    assert_eq!(s, stats(2, 3, 4, 5));
}

#[test]
fn add_assign_and_clear() {
    let mut s = stats(1, 2, 3, 4);
    s.add_assign(stats(10, 20, 30, 40));
    assert_eq!(s, stats(11, 22, 33, 44));
    s.clear();
    assert_eq!(s, stats(0, 0, 0, 0));
    assert_eq!(GuideStats::default(), stats(0, 0, 0, 0));
}

#[test]
fn add_record_keeps_order_and_duplicates() {
    let mut g = Guides::new();
    assert_eq!(g.len(), 0);
    g.add_record(b"c1", b"a1", b"ACGT", b"TTTT");
    g.add_record(b"c2", b"a2", b"ACGT", b"TTTT");
    assert_eq!(g.len(), 2);
    let pats = g.iter_patterns();
    assert_eq!(pats.len(), 2);
    assert_eq!(pats[1].0, 1);
    assert_eq!(pats[1].1, &b"ACGT".to_vec());
    assert_eq!(pats[1].2, &b"TTTT".to_vec());
    let all = g.iter_all();
    assert_eq!(all[0].1, &b"c1".to_vec());
    assert_eq!(all[1].2, &b"a2".to_vec());
}

#[test]
fn rows_are_uppercased() {
    let g = Guides::from_rows(&vec![row("c1", "a1", "acgt", "ttNn"), row("c2", "a2", "GGCC", "aagg")]);
    assert_eq!(g.len(), 2);
    assert_eq!(g.g1[0], b"ACGT".to_vec());
    assert_eq!(g.g2[0], b"TTNN".to_vec());
    assert_eq!(g.construct[1], b"c2".to_vec());
    assert_eq!(g.alias[1], b"a2".to_vec());
    assert_eq!(g.g2[1], b"AAGG".to_vec());
}

#[test]
fn iupac_check() {
    assert!(one_guide("ACGTN", "RYKM").all_iupac());
    assert!(!one_guide("ACGT", "AC-T").all_iupac());
    assert!(!one_guide("ACZT", "ACGT").all_iupac());
    assert!(!one_guide("", "ACGT").all_iupac());
    assert!(!one_guide("ACGT", "").all_iupac());
    assert!(one_guide("acgu", "xXbB").all_iupac());
    assert!(one_guide("UNRYSWKMBDHV", "ACGT").all_iupac());
    assert!(!one_guide("UNRYSWKMBDHVX", "ACGT").all_iupac());
    assert!(!one_guide("ACGT", "unryswkmbdhvxACGT").all_iupac());
}

#[test]
fn end_to_end_single_guide() {
    let mut p = PatternProcessor::new(one_guide("ACGT", "TTTT"), 1);
    let mut global = zero_counts(1);
    p.process_record(b"AAACGTAAA");
    assert!(p.can_fold(&global));
    p.on_batch_complete(&mut global);
    assert_eq!(global[0], stats(1, 0, 0, 1));
    assert_eq!(p.local_counts()[0], stats(0, 0, 0, 0));
    let g = one_guide("ACGT", "TTTT");
    let rows = report_rows(&g, &global).unwrap();
    assert_eq!(rows.len(), 1);
    assert_eq!(rows[0].construct, "c1");
    assert_eq!(rows[0].alias, "a1");
    assert_eq!(rows[0].g1, "ACGT");
    assert_eq!(rows[0].g2, "TTTT");
    assert_eq!(
        (rows[0].count_g1, rows[0].count_g2, rows[0].count_paired, rows[0].count_unpaired),
        (1, 0, 0, 1)
    );
}

#[test]
fn both_probes_in_one_record() {
    let mut p = PatternProcessor::new(one_guide("ACGT", "TTTT"), 1);
    p.process_record(b"GGACGTGGTTTTGG");
    assert_eq!(p.local_counts()[0], stats(1, 1, 1, 0));
    p.process_record(b"GGGGGGGGGG");
    assert_eq!(p.local_counts()[0], stats(1, 1, 1, 0));
    p.process_record(b"CCCCTTTTCCCC");
    assert_eq!(p.local_counts()[0], stats(1, 2, 1, 1));
}

#[test]
fn zero_budget_needs_exact_occurrence() {
    let mut exact = PatternProcessor::new(one_guide("ACGT", "GGGG"), 0);
    exact.process_record(b"AAACCTAAA");
    assert_eq!(exact.local_counts()[0], stats(0, 0, 0, 0));
    exact.process_record(b"AAACGTAAA");
    assert_eq!(exact.local_counts()[0], stats(1, 0, 0, 1));
    let mut loose = PatternProcessor::new(one_guide("ACGT", "GGGG"), 1);
    loose.process_record(b"AAACCTAAA");
    assert_eq!(loose.local_counts()[0], stats(1, 0, 0, 1));
    assert_eq!(loose.budget_value(), 1);
}

#[test]
fn case_of_probe_text_does_not_matter() {
    let records: [&[u8]; 4] = [b"AAACGTAAA", b"TTTTTTTT", b"acgtacgt", b"AAAAAAAA"];
    let mut lower = PatternProcessor::new(one_guide("acgt", "tttt"), 0);
    let mut upper = PatternProcessor::new(one_guide("ACGT", "TTTT"), 0);
    for r in records.iter() {
        lower.process_record(r);
        upper.process_record(r);
        assert_eq!(lower.local_counts()[0], upper.local_counts()[0]);
    }
}

#[test]
fn twelve_extra_codes_are_searched() {
    let mut p = PatternProcessor::new(one_guide("UNRYSWKMBDHV", "ACGT"), 2);
    p.process_record(b"GGACGTGG");
    assert_eq!(p.local_counts()[0], stats(0, 1, 0, 1));
    assert_eq!(MAX_BUDGET, i32::MAX as usize);
}

fn guides3() -> Guides {
    Guides::from_rows(&vec![
        row("c1", "a1", "ACGT", "TTTT"),
        row("c2", "a2", "GGCC", "ACGT"),
        row("c3", "a3", "CCCC", "GGGG"),
    ])
}

fn run(batches: &[Vec<&[u8]>], workers: usize) -> Vec<GuideStats> {
    let g = guides3();
    let mut global = zero_counts(g.len());
    let mut procs: Vec<PatternProcessor> = (0..workers).map(|_| PatternProcessor::new(guides3(), 1)).collect();
    for (b, batch) in batches.iter().enumerate() {
        let p = &mut procs[b % workers];
        for r in batch {
            assert!(p.has_headroom());
            p.process_record(r);
        }
        assert!(p.can_fold(&global));
        p.on_batch_complete(&mut global);
    }
    global
}

#[test]
fn partition_does_not_change_totals() {
    let recs: Vec<&[u8]> =
        vec![b"AAACGTAAA", b"TTTTGGCC", b"CCCCGGGG", b"ACGTTTTT", b"AAAAAAAA", b"GGCCACGT"];
    let one = run(&[recs.clone()], 1);
    let split = run(&[recs[3..].to_vec(), recs[..2].to_vec(), recs[2..3].to_vec()], 2);
    let singles: Vec<Vec<&[u8]>> = recs.iter().rev().map(|r| vec![*r]).collect();
    let many = run(&singles, 4);
    assert_eq!(one, split);
    assert_eq!(one, many);
    assert_eq!(one[2], stats(2, 1, 1, 1));
}

#[test]
fn report_is_same_for_any_worker_count() {
    let recs: Vec<&[u8]> = vec![b"AAACGTAAA", b"TTTTGGCC", b"CCCCGGGG", b"ACGTTTTT"];
    let a = run(&[recs[..2].to_vec(), recs[2..].to_vec()], 1);
    let b = run(&[recs[2..].to_vec(), recs[..2].to_vec()], 3);
    let ra = report_rows(&guides3(), &a).unwrap();
    let rb = report_rows(&guides3(), &b).unwrap();
    assert_eq!(ra.len(), 3);
    for i in 0..3 {
        assert_eq!(ra[i].construct, rb[i].construct);
        assert_eq!(ra[i].g2, rb[i].g2);
        assert_eq!(ra[i].count_g1, rb[i].count_g1);
        assert_eq!(ra[i].count_unpaired, rb[i].count_unpaired);
    }
    assert_eq!(ra[1].construct, "c2");
}

#[test]
fn report_rejects_non_utf8() {
    let mut g = Guides::new();
    g.add_record(b"c1", b"a1", b"ACGT", b"TTTT");
    g.add_record(&[0xff, 0xfe], b"a2", b"ACGT", b"TTTT");
    let global = zero_counts(2);
    assert!(matches!(report_rows(&g, &global), Err(ReportError::NonUtf8Sequence)));
}

#[test]
fn overflow_guards() {
    let mut p = PatternProcessor::new(one_guide("ACGT", "TTTT"), 1);
    assert!(p.has_headroom());
    assert!(!p.can_fold(&zero_counts(2)));
    let mut full = zero_counts(1);
    full[0].count_g1 = usize::MAX;
    assert!(p.can_fold(&full));
    p.process_record(b"ACGT");
    assert!(!p.can_fold(&full));
}
