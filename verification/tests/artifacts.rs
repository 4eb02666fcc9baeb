use preexplorer::configuration::Style;
use preexplorer::decimal::{i64_string, u64_string};
use preexplorer::process::Process;
use preexplorer::sequence::Sequence;
use preexplorer::traits::{
    plot_targets, save_target, save_with_id_target, write_plot_script_target, Configurable,
    Plotable, Saveable,
};

#[test]
fn decimal_rendering_is_exact() {
    assert_eq!(u64_string(0), "0");
    assert_eq!(u64_string(10), "10");
    assert_eq!(u64_string(90537), "90537");
    assert_eq!(i64_string(-7), "-7");
    assert_eq!(i64_string(0), "0");
    assert_eq!(i64_string(i64::MAX), "9223372036854775807");
    assert_eq!(i64_string(i64::MIN), "-9223372036854775808");
}

#[test]
fn sequence_raw_data_renders_index_value_lines() {
    let s = Sequence::new(vec![10, 20, 30]);
    assert_eq!(s.raw_data(), "0\t10\n1\t20\n2\t30\n");
}

#[test]
fn sequence_raw_data_of_empty_series_is_empty() {
    let s = Sequence::new(vec![]);
    assert_eq!(s.raw_data(), "");
}

#[test]
fn process_raw_data_pairs_and_truncates_to_shorter() {
    let p = Process::new(vec![1, 2, 3], vec![40, 50]);
    assert_eq!(p.raw_data(), "1\t40\n2\t50\n");
}

#[test]
fn sequence_plot_script_with_default_options() {
    let s = Sequence::new(vec![5]).id("run".to_string());
    assert_eq!(
        s.plot_script(),
        "set terminal pngcairo\nset output \"plots/run.png\"\nplot \"data/run.txt\" using 1:2 with lines\n"
    );
}

#[test]
fn plot_script_renders_each_set_option_once() {
    let s = Sequence::new(vec![5])
        .id("run".to_string())
        .title("Energy".to_string())
        .logx("10".to_string())
        .labely("E".to_string())
        .rangex("0".to_string(), "9".to_string())
        .style(Style::Points)
        .dashtype(3)
        .custom("grid".to_string(), "on".to_string());
    let script = s.plot_script();
    let expected = "set terminal pngcairo\nset output \"plots/run.png\"\nset title \"Energy\"\nset logscale x 10\nset ylabel \"E\"\nset xrange [0:9]\nset grid on\nplot \"data/run.txt\" using 1:2 with points dashtype 3 title \"Energy\"\n";
    assert_eq!(script, expected);
}

#[test]
fn write_plot_script_twice_is_byte_identical() {
    let s = Sequence::new(vec![1, 2]).id("twice".to_string());
    let first = write_plot_script_target(&s).unwrap();
    let second = write_plot_script_target(&s).unwrap();
    assert_eq!(first.0, second.0);
    assert_eq!(first.1, second.1);
}

#[test]
fn save_target_requires_an_id() {
    let s = Sequence::new(vec![1]);
    assert!(save_target(&s).is_err());
    let s = s.id("named".to_string());
    let (path, _) = save_target(&s).unwrap();
    assert_eq!(path, "data/named.txt");
}

#[test]
fn save_content_without_header_is_raw_data() {
    let s = Sequence::new(vec![7, 8]).id("bare".to_string()).header(false);
    let (path, content) = save_target(&s).unwrap();
    assert_eq!(path, "data/bare.txt");
    assert_eq!(content, "0\t7\n1\t8\n");
}

#[test]
fn save_content_with_header_prepends_comment_block() {
    let s = Sequence::new(vec![7])
        .id("doc".to_string())
        .title("T".to_string())
        .date("2020-01-02".to_string())
        .extension("dat".to_string());
    let (path, content) = save_target(&s).unwrap();
    assert_eq!(path, "data/doc.dat");
    assert_eq!(content, "# T\n# doc\n# 2020-01-02\n0\t7\n");
}

#[test]
fn save_with_id_bypasses_the_stored_id() {
    let s = Sequence::new(vec![9]).header(false);
    let (path, content) = save_with_id_target(&s, "explicit");
    assert_eq!(path, "data/explicit.txt");
    assert_eq!(content, "0\t9\n");
}

#[test]
fn plot_targets_set_id_and_produce_both_artifacts() {
    let mut s = Sequence::new(vec![4]).header(false);
    let artifacts = plot_targets(&mut s, "full".to_string());
    assert_eq!(artifacts.data_path, "data/full.txt");
    assert_eq!(artifacts.data_content, "0\t4\n");
    assert_eq!(artifacts.script_path, "plots/full.gnu");
    assert_eq!(artifacts.script_content, s.plot_script());
    assert_eq!(s.configuration_as_ref().get_id().unwrap(), "full");
}
