use preexplorer::comparison::{Processes, Sequences};
use preexplorer::process::Process;
use preexplorer::sequence::Sequence;
use preexplorer::traits::{Comparison, Configurable, Preexplore, PreexploreProcess};

#[test]
fn group_script_has_one_directive_per_member() {
    let a = Sequence::new(vec![1, 2]).title("A".to_string());
    let b = Sequence::new(vec![3, 4]).title("B".to_string());
    let c = Sequence::new(vec![5, 6]).title("C".to_string());
    let mut group = Sequences::from(a);
    group.add(b);
    group.add(c);
    let group = group.id("trio".to_string());
    let script = group.plot_script();
    assert_eq!(script.matches("using 1:2").count(), 3);
    assert!(script.contains("plot \"data/trio_0.txt\" using 1:2 with lines title \"A\"\n"));
    assert!(script.contains("replot \"data/trio_1.txt\" using 1:2 with lines title \"B\"\n"));
    assert!(script.contains("replot \"data/trio_2.txt\" using 1:2 with lines title \"C\"\n"));
}

#[test]
fn group_members_each_keep_their_own_data_file() {
    let a = Sequence::new(vec![10]);
    let b = Sequence::new(vec![20, 21]);
    let mut group = Sequences::from(a);
    group.add(b);
    let group = group.id("pair".to_string());
    let targets = group.save_targets().unwrap();
    assert_eq!(targets.len(), 2);
    assert_eq!(targets[0].0, "data/pair_0.txt");
    assert_eq!(targets[0].1, "0\t10\n");
    assert_eq!(targets[1].0, "data/pair_1.txt");
    assert_eq!(targets[1].1, "0\t20\n1\t21\n");
}

#[test]
fn group_without_id_refuses_terminal_operations() {
    let group = Sequences::from(Sequence::new(vec![1]));
    assert!(group.save_targets().is_err());
    assert!(group.write_plot_script_target().is_err());
}

#[test]
fn add_many_folds_add_in_order() {
    let mut group = Sequences::from(Sequence::new(vec![0]));
    group.add_many(vec![Sequence::new(vec![1]), Sequence::new(vec![2])]);
    assert_eq!(group.members.len(), 3);
    assert_eq!(group.members[0].data, vec![0]);
    assert_eq!(group.members[1].data, vec![1]);
    assert_eq!(group.members[2].data, vec![2]);
}

#[test]
fn growing_a_group_keeps_its_configuration() {
    let mut group = Sequences::from(Sequence::new(vec![0])).title("frame".to_string()).id(
        "g".to_string(),
    );
    group.add(Sequence::new(vec![1]));
    group.add_many(vec![Sequence::new(vec![2])]);
    assert_eq!(group.configuration_as_ref().get_title().unwrap(), "frame");
    assert_eq!(group.configuration_as_ref().get_id().unwrap(), "g");
    let members_before = group.members.len();
    group.add_many(vec![]);
    assert_eq!(group.members.len(), members_before);
    assert_eq!(group.configuration_as_ref().get_title().unwrap(), "frame");
}

#[test]
fn process_group_renders_member_pairs() {
    let a = Process::new(vec![0, 1], vec![5, 6]);
    let b = Process::new(vec![2, 3], vec![7, 8]);
    let mut group = Processes::from(a);
    group.add(b);
    let group = group.id("walk".to_string());
    let script = group.plot_script();
    assert_eq!(script.matches("using 1:2").count(), 2);
    assert!(script.contains("plot \"data/walk_0.txt\""));
    assert!(script.contains("replot \"data/walk_1.txt\""));
    let targets = group.save_targets().unwrap();
    assert_eq!(targets[0].1, "0\t5\n1\t6\n");
    assert_eq!(targets[1].1, "2\t7\n3\t8\n");
}

#[test]
fn preexplore_lifts_plain_series() {
    let s = vec![7, 8, 9].preexplore();
    assert_eq!(s.data, vec![7, 8, 9]);
    assert!(s.configuration_as_ref().get_id().is_none());
    let p = (vec![1, 2], vec![3, 4]).preexplore();
    assert_eq!(p.x, vec![1, 2]);
    assert_eq!(p.y, vec![3, 4]);
}
