use lightsysmon::cli::SortKey;
use lightsysmon::process::{rank_processes, ProcessRank};

fn ranks(v: &[(u64, u64)]) -> Vec<ProcessRank> {
    v.iter().map(|&(c, m)| ProcessRank { cpu_rank: c, memory_bytes: m }).collect()
}

#[test]
fn orders_by_cpu_descending() {
    let r = ranks(&[(5, 100), (9, 50), (1, 900), (7, 10)]);
    assert_eq!(rank_processes(&r, &SortKey::Cpu, 10), vec![1, 3, 0, 2]);
}

#[test]
fn orders_by_memory_descending() {
    let r = ranks(&[(5, 100), (9, 50), (1, 900), (7, 10)]);
    assert_eq!(rank_processes(&r, &SortKey::Mem, 10), vec![2, 0, 1, 3]);
}

#[test]
fn cuts_after_count() {
    let r = ranks(&[(5, 100), (9, 50), (1, 900), (7, 10)]);
    assert_eq!(rank_processes(&r, &SortKey::Cpu, 2), vec![1, 3]);
    assert_eq!(rank_processes(&r, &SortKey::Cpu, 0), Vec::<usize>::new());
    assert_eq!(rank_processes(&ranks(&[]), &SortKey::Mem, 5), Vec::<usize>::new());
}

#[test]
fn equal_values_keep_reading_order() {
    let r = ranks(&[(3, 1), (3, 1), (4, 1), (3, 1)]);
    assert_eq!(rank_processes(&r, &SortKey::Cpu, 10), vec![2, 0, 1, 3]);
    assert_eq!(rank_processes(&r, &SortKey::Mem, 3), vec![0, 1, 2]);
}

#[test]
fn matches_a_stable_sort() {
    let mut x: u64 = 12345;
    for n in 0..40usize {
        let mut v = Vec::new();
        for _ in 0..n {
            x = x.wrapping_mul(6364136223846793005).wrapping_add(1442695040888963407);
            v.push(((x >> 60) % 5, (x >> 50) % 7));
        }
        let r = ranks(&v);
        for count in [0usize, 1, 3, n / 2, n, n + 4] {
            let mut expected: Vec<usize> = (0..n).collect();
            expected.sort_by(|a, b| v[*b].0.cmp(&v[*a].0));
            expected.truncate(count);
            assert_eq!(rank_processes(&r, &SortKey::Cpu, count), expected);
            let mut expected: Vec<usize> = (0..n).collect();
            expected.sort_by(|a, b| v[*b].1.cmp(&v[*a].1));
            expected.truncate(count);
            assert_eq!(rank_processes(&r, &SortKey::Mem, count), expected);
        }
    }
}

#[test]
fn fewer_processes_give_a_prefix() {
    let r = ranks(&[(2, 8), (6, 3), (6, 9), (1, 1), (8, 0)]);
    let all = rank_processes(&r, &SortKey::Cpu, 5);
    for c in 0..=5 {
        assert_eq!(rank_processes(&r, &SortKey::Cpu, c), all[..c].to_vec());
    }
}
