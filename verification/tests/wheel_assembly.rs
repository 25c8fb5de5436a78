use cargo_metadata::MetadataCommand;
use wheel_tagger::assembly::{Assembly, Progress, WriterAction, WriterOutcome};
use wheel_tagger::error::{PackagingError, PackagingStage};
use wheel_tagger::task::{manifest_tasks, WheelTask};

/// A wheel writer that keeps what it was asked in memory and fails on the
/// call whose number, counted from one, is `fail_on`.
struct MockWriter {
    calls: usize,
    fail_on: Option<usize>,
    open: Option<(String, Vec<String>)>,
    wheels: Vec<(String, Vec<String>)>,
    log: Vec<String>,
}

impl MockWriter {
    fn new(fail_on: Option<usize>) -> MockWriter {
        MockWriter { calls: 0, fail_on, open: None, wheels: Vec::new(), log: Vec::new() }
    }

    fn perform(&mut self, action: &WriterAction) -> WriterOutcome {
        self.calls += 1;
        if self.fail_on == Some(self.calls) {
            return WriterOutcome::Failed { detail: format!("call {} refused", self.calls) };
        }
        match action {
            WriterAction::Create { tag, tags } => {
                assert!(self.open.is_none(), "an archive is still open");
                assert_eq!(tags, &vec![tag.clone()]);
                self.log.push(format!("create {}", tag));
                self.open = Some((format!("mymod-0.1.0-{}.whl", tag), Vec::new()));
            }
            WriterAction::Copy { target } => {
                self.log.push(format!("copy {}", target));
                self.open.as_mut().expect("no open archive").1.push(target.clone());
            }
            WriterAction::Finalize => {
                self.log.push(String::from("finalize"));
                let wheel = self.open.take().expect("no open archive");
                self.wheels.push(wheel);
            }
            WriterAction::Finished | WriterAction::Abort { .. } => panic!("nothing to perform"),
        }
        WriterOutcome::Succeeded
    }
}

fn assemble(tasks: Vec<WheelTask>, writer: &mut MockWriter) -> (Assembly, WriterAction) {
    let (mut assembly, mut action) = Assembly::start(tasks);
    loop {
        match action {
            WriterAction::Finished | WriterAction::Abort { .. } => return (assembly, action),
            _ => {
                let outcome = writer.perform(&action);
                action = assembly.step(outcome);
            }
        }
    }
}

fn task(tag: &str, library_name: &str) -> WheelTask {
    WheelTask { tag: tag.to_string(), library_name: library_name.to_string() }
}

fn three_tasks() -> Vec<WheelTask> {
    vec![
        task("cp36-cp36m-linux_x86_64", "mymod.cpython-36m-x86_64-linux-gnu.so"),
        task("cp37-cp37m-linux_x86_64", "mymod.cpython-37m-x86_64-linux-gnu.so"),
        task("cp38-cp38-linux_x86_64", "mymod.cpython-38-x86_64-linux-gnu.so"),
    ]
}

#[test]
fn first_request_creates_the_archive_of_the_first_task() {
    let (assembly, action) = Assembly::start(three_tasks());
    assert_eq!(
        action,
        WriterAction::Create {
            tag: String::from("cp36-cp36m-linux_x86_64"),
            tags: vec![String::from("cp36-cp36m-linux_x86_64")],
        }
    );
    assert_eq!(assembly.request(), action);
    assert_eq!(assembly.finalized(), 0);
    assert_eq!(
        assembly.progress(),
        &Progress::Working { task: 0, stage: PackagingStage::Create }
    );
}

#[test]
fn empty_task_list_is_finished_at_once() {
    let (mut assembly, action) = Assembly::start(Vec::new());
    assert_eq!(action, WriterAction::Finished);
    assert_eq!(assembly.progress(), &Progress::Finished);
    assert_eq!(assembly.finalized(), 0);
    assert_eq!(assembly.step(WriterOutcome::Succeeded), WriterAction::Finished);
    assert_eq!(
        assembly.step(WriterOutcome::Failed { detail: String::from("late") }),
        WriterAction::Finished
    );
}

#[test]
fn each_task_takes_create_copy_finalize() {
    let (mut assembly, _) = Assembly::start(vec![task("cp38-cp38-linux_x86_64", "mymod.so")]);
    assert_eq!(
        assembly.step(WriterOutcome::Succeeded),
        WriterAction::Copy { target: String::from("mymod.so") }
    );
    assert_eq!(assembly.finalized(), 0);
    assert_eq!(assembly.step(WriterOutcome::Succeeded), WriterAction::Finalize);
    assert_eq!(assembly.finalized(), 0);
    assert_eq!(assembly.step(WriterOutcome::Succeeded), WriterAction::Finished);
    assert_eq!(assembly.finalized(), 1);
    assert_eq!(assembly.progress(), &Progress::Finished);
}

#[test]
fn tasks_are_assembled_in_list_order() {
    let mut writer = MockWriter::new(None);
    let (assembly, last) = assemble(three_tasks(), &mut writer);
    assert_eq!(last, WriterAction::Finished);
    assert_eq!(assembly.finalized(), 3);
    assert_eq!(writer.calls, 9);
    assert_eq!(
        writer.log,
        vec![
            "create cp36-cp36m-linux_x86_64",
            "copy mymod.cpython-36m-x86_64-linux-gnu.so",
            "finalize",
            "create cp37-cp37m-linux_x86_64",
            "copy mymod.cpython-37m-x86_64-linux-gnu.so",
            "finalize",
            "create cp38-cp38-linux_x86_64",
            "copy mymod.cpython-38-x86_64-linux-gnu.so",
            "finalize",
        ]
    );
    assert_eq!(
        writer.wheels,
        vec![
            (
                String::from("mymod-0.1.0-cp36-cp36m-linux_x86_64.whl"),
                vec![String::from("mymod.cpython-36m-x86_64-linux-gnu.so")]
            ),
            (
                String::from("mymod-0.1.0-cp37-cp37m-linux_x86_64.whl"),
                vec![String::from("mymod.cpython-37m-x86_64-linux-gnu.so")]
            ),
            (
                String::from("mymod-0.1.0-cp38-cp38-linux_x86_64.whl"),
                vec![String::from("mymod.cpython-38-x86_64-linux-gnu.so")]
            ),
        ]
    );
}

#[test]
fn failure_of_the_second_task_leaves_the_first_wheel_and_skips_the_third() {
    let mut writer = MockWriter::new(Some(5));
    let (assembly, last) = assemble(three_tasks(), &mut writer);
    let error = PackagingError {
        stage: PackagingStage::Copy,
        task: 1,
        tag: String::from("cp37-cp37m-linux_x86_64"),
        detail: String::from("call 5 refused"),
    };
    assert_eq!(last, WriterAction::Abort { error: error.clone() });
    assert_eq!(assembly.progress(), &Progress::Aborted { error });
    assert_eq!(assembly.finalized(), 1);
    assert_eq!(writer.calls, 5);
    assert_eq!(writer.wheels.len(), 1);
    assert_eq!(writer.wheels[0].0, "mymod-0.1.0-cp36-cp36m-linux_x86_64.whl");
    assert!(writer.log.iter().all(|line| !line.contains("cp38")));
}

#[test]
fn failure_at_every_request_stops_there() {
    for failing_call in 1..=9usize {
        let mut writer = MockWriter::new(Some(failing_call));
        let (assembly, last) = assemble(three_tasks(), &mut writer);
        let failed_task = (failing_call - 1) / 3;
        let stage = match (failing_call - 1) % 3 {
            0 => PackagingStage::Create,
            1 => PackagingStage::Copy,
            _ => PackagingStage::Finalize,
        };
        match last {
            WriterAction::Abort { error } => {
                assert_eq!(error.task, failed_task);
                assert_eq!(error.stage, stage);
                assert_eq!(error.tag, three_tasks()[failed_task].tag);
                assert_eq!(error.detail, format!("call {} refused", failing_call));
            }
            other => panic!("expected an abort, got {:?}", other),
        }
        assert_eq!(writer.calls, failing_call);
        assert_eq!(writer.wheels.len(), failed_task);
        assert_eq!(assembly.finalized(), failed_task);
    }
}

#[test]
fn creation_failure_of_the_first_task_produces_nothing() {
    let mut writer = MockWriter::new(Some(1));
    let (assembly, last) = assemble(three_tasks(), &mut writer);
    assert!(matches!(
        last,
        WriterAction::Abort { error: PackagingError { stage: PackagingStage::Create, task: 0, .. } }
    ));
    assert_eq!(assembly.finalized(), 0);
    assert!(writer.wheels.is_empty());
    assert!(writer.log.is_empty());
}

#[test]
fn aborted_assembly_stays_aborted() {
    let (mut assembly, _) = Assembly::start(three_tasks());
    let abort = assembly.step(WriterOutcome::Failed { detail: String::from("disk full") });
    let error = PackagingError {
        stage: PackagingStage::Create,
        task: 0,
        tag: String::from("cp36-cp36m-linux_x86_64"),
        detail: String::from("disk full"),
    };
    assert_eq!(abort, WriterAction::Abort { error: error.clone() });
    assert_eq!(assembly.step(WriterOutcome::Succeeded), abort);
    assert_eq!(assembly.step(WriterOutcome::Failed { detail: String::from("again") }), abort);
    assert_eq!(assembly.request(), abort);
    assert_eq!(assembly.finalized(), 0);
    assert_eq!(assembly.progress(), &Progress::Aborted { error });
}

#[test]
fn same_task_asks_the_same_of_the_writer_every_time() {
    let wanted = task("cp36-abi3-linux_x86_64", "mymod.so");
    let mut first = MockWriter::new(None);
    assemble(vec![wanted.clone()], &mut first);
    let mut second = MockWriter::new(None);
    assemble(vec![wanted.clone()], &mut second);
    assert_eq!(first.log, second.log);
    assert_eq!(first.wheels, second.wheels);

    let mut repeated = MockWriter::new(None);
    assemble(vec![task("cp39-cp39-linux_x86_64", "other.so"), wanted.clone(), wanted], &mut repeated);
    assert_eq!(repeated.log[3..6], first.log[..]);
    assert_eq!(repeated.log[6..9], first.log[..]);
    assert_eq!(repeated.wheels[1], first.wheels[0]);
    assert_eq!(repeated.wheels[2], first.wheels[0]);
}

#[test]
fn manifest_with_two_markers_ends_in_exactly_one_wheel() {
    let json = "{\"packages\":[{\"name\":\"mymod\",\"version\":\"0.1.0\",\
        \"id\":\"mymod 0.1.0 (path+file:///mymod)\",\"source\":null,\
        \"dependencies\":[{\"name\":\"pyo3\",\"source\":null,\"req\":\"^0.13\",\"kind\":null,\
        \"optional\":false,\"uses_default_features\":true,\
        \"features\":[\"abi3-py36\",\"abi3-py37\"],\"target\":null,\"rename\":null,\
        \"registry\":null}],\"targets\":[],\"features\":{},\
        \"manifest_path\":\"/mymod/Cargo.toml\"}],\"workspace_members\":[],\
        \"resolve\":{\"nodes\":[],\"root\":\"mymod 0.1.0 (path+file:///mymod)\"},\
        \"workspace_root\":\"/mymod\",\"target_directory\":\"/mymod/target\",\"version\":1}";
    let metadata = MetadataCommand::parse(json).expect("metadata");
    let tasks = manifest_tasks(&metadata, "mymod").expect("tasks");
    let mut writer = MockWriter::new(None);
    let (assembly, last) = assemble(tasks, &mut writer);
    assert_eq!(last, WriterAction::Finished);
    assert_eq!(assembly.finalized(), 1);
    assert_eq!(
        writer.wheels,
        vec![(
            String::from("mymod-0.1.0-cp36-abi3-linux_x86_64.whl"),
            vec![String::from("mymod.so")]
        )]
    );
}
