use preexplorer::data::{split_even_odd, Data, Dispatched};
use preexplorer::errors::SavingError;
use preexplorer::traits::Saveable;

#[test]
fn dimension_two_deinterleaves_by_index_parity() {
    let d = Data::new(vec![1, 2, 3, 4, 5, 6], 2);
    match d.dispatch().unwrap() {
        Dispatched::Process(p) => {
            assert_eq!(p.x, vec![1, 3, 5]);
            assert_eq!(p.y, vec![2, 4, 6]);
        },
        Dispatched::Sequence(_) => panic!("dimension 2 must dispatch to a process"),
    }
}

#[test]
fn dimension_one_delegates_to_a_sequence() {
    let d = Data::new(vec![10, 20], 1);
    match d.dispatch().unwrap() {
        Dispatched::Sequence(s) => {
            assert_eq!(s.data, vec![10, 20]);
            assert_eq!(s.raw_data(), "0\t10\n1\t20\n");
        },
        Dispatched::Process(_) => panic!("dimension 1 must dispatch to a sequence"),
    }
}

#[test]
fn split_handles_odd_lengths() {
    let (first, second) = split_even_odd(&vec![1, 2, 3, 4, 5]);
    assert_eq!(first, vec![1, 3, 5]);
    assert_eq!(second, vec![2, 4]);
}

#[test]
fn split_is_deterministic_across_repeated_calls() {
    let input = vec![9, -3, 0, 7, 7, 2];
    let first_run = split_even_odd(&input);
    let second_run = split_even_odd(&input);
    assert_eq!(first_run, second_run);
}

#[test]
fn unsupported_dimension_fails_and_produces_nothing() {
    let d = Data::new(vec![1, 2, 3], 0);
    assert_eq!(d.dispatch().unwrap_err(), SavingError::UnsupportedDimension);
    let d = Data::new(vec![1, 2, 3], 5);
    assert_eq!(d.plot_script().unwrap_err(), SavingError::UnsupportedDimension);
    assert_eq!(d.dispatch().unwrap_err(), SavingError::UnsupportedDimension);
}

#[test]
fn data_table_repeats_the_value_per_dimension_width() {
    let d = Data::new(vec![3, 4], 2);
    assert_eq!(d.raw_data(), "# index value\n0\t3\t3\n1\t4\t4\n");
    let (path, content) = d.save_target("flat");
    assert_eq!(path, "data/flat.txt");
    assert_eq!(content, "# index value\n0\t3\t3\n1\t4\t4\n");
}

#[test]
fn data_table_rows_match_the_sequence_format_at_width_one() {
    let d = Data::new(vec![7], 1);
    assert_eq!(d.raw_data(), "# index value\n0\t7\n");
}

#[test]
fn data_builders_store_their_options() {
    let d = Data::new(vec![1], 1)
        .set_title("general".to_string())
        .set_logx("2".to_string())
        .set_logy("10".to_string());
    let script = d.plot_script().unwrap();
    assert!(script.contains("set title \"general\"\n"));
    assert!(script.contains("set logscale x 2\n"));
    assert!(script.contains("set logscale y 10\n"));
}
