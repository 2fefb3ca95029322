use serde::de::Error as DeError;
use serde::{Deserialize, Deserializer, Serialize, Serializer};
use serde_json::Value;
use sidekiq::json::{coerce_args, wrap_args};
use sidekiq::worker::{derive_class_name, worker_args};
use sidekiq::{EnqueueAction, Placement, RetryOpts, Worker, WorkerOpts, WorkerRef};
use std::time::Duration;

struct TestOpts;

impl Worker<()> for TestOpts {
    fn opts() -> WorkerOpts<(), Self> {
        WorkerOpts::new()
            // Test bool
            .retry(false)
            // Test usize
            .retry(42)
            // Test the new type
            .retry(RetryOpts::Never)
            .unique_for(Duration::from_secs(30))
            .queue("yolo_quue")
    }
}

struct X1Y2MyJob;

impl Worker<()> for X1Y2MyJob {}

struct TestModuleWorker;

impl Worker<()> for TestModuleWorker {}

struct TestCustomClassNameWorker;

impl Worker<()> for TestCustomClassNameWorker {
    fn class_name(_rust_path: &str) -> String {
        "My::Cool::Workers::TestCustomClassNameWorker".to_string()
    }
}

/// The class name of `W`, which stands in the modules `my::cool::workers` under `name`.
fn class_name<W: Worker<()>>(name: &str) -> String {
    W::class_name(&format!("my::cool::workers::{name}"))
}

#[test]
fn ignores_modules_in_ruby_worker_name() {
    assert_eq!(
        class_name::<TestModuleWorker>("TestModuleWorker"),
        "TestModuleWorker".to_string()
    );
}

#[test]
fn does_not_reformat_valid_ruby_class_names() {
    assert_eq!(class_name::<X1Y2MyJob>("X1Y2MyJob"), "X1Y2MyJob".to_string());
}

#[test]
fn supports_custom_class_name_for_workers() {
    assert_eq!(
        class_name::<TestCustomClassNameWorker>("TestCustomClassNameWorker"),
        "My::Cool::Workers::TestCustomClassNameWorker".to_string()
    );
}

#[test]
fn class_names_come_from_the_last_segment_of_any_path() {
    assert_eq!(derive_class_name("workers::MyWorker"), "MyWorker");
    assert_eq!(derive_class_name("MyWorker"), "MyWorker");
    assert_eq!(derive_class_name("a::b::payment_report_worker"), "PaymentReportWorker");
    assert_eq!(derive_class_name("a::"), "");
    assert_eq!(derive_class_name("a:b"), derive_class_name("x::a:b"));
}

#[test]
fn class_names_that_are_valid_are_kept() {
    assert_eq!(derive_class_name("workers::HTTPJob"), "HTTPJob");
    assert_eq!(derive_class_name("HTTPJob"), "HTTPJob");
    assert_eq!(derive_class_name("a::b::X"), "X");
    assert_eq!(derive_class_name("a::httpJob"), "HttpJob");
    assert_eq!(derive_class_name("a::My_Job"), "My_Job");
    assert_eq!(derive_class_name("a::HTTP_job"), "HTTP_job");
    assert_eq!(derive_class_name("a::_HTTP_job"), "HttpJob");
    assert_eq!(derive_class_name("a::my_job"), "MyJob");
}

#[derive(Clone, Debug, PartialEq)]
struct TestArg {
    name: String,
    age: i64,
}

impl Serialize for TestArg {
    fn serialize<S: Serializer>(&self, serializer: S) -> Result<S::Ok, S::Error> {
        let mut fields = serde_json::Map::new();
        fields.insert("name".to_string(), Value::from(self.name.clone()));
        fields.insert("age".to_string(), Value::from(self.age));
        Value::Object(fields).serialize(serializer)
    }
}

impl<'de> Deserialize<'de> for TestArg {
    fn deserialize<D: Deserializer<'de>>(deserializer: D) -> Result<Self, D::Error> {
        let value = Value::deserialize(deserializer)?;
        let name = value.get("name").and_then(Value::as_str);
        let age = value.get("age").and_then(Value::as_i64);
        match (name, age) {
            (Some(name), Some(age)) => Ok(TestArg {
                name: name.to_string(),
                age,
            }),
            _ => Err(D::Error::custom("expected a name and an age")),
        }
    }
}

fn arg(name: &str, age: i64) -> TestArg {
    TestArg {
        name: name.into(),
        age,
    }
}

struct TestGenericWorker;

impl Worker<TestArg> for TestGenericWorker {}

struct TestMultiArgWorker;

impl Worker<(TestArg, TestArg)> for TestMultiArgWorker {}

struct TestTupleArgWorker;

impl Worker<(TestArg,)> for TestTupleArgWorker {
    fn disable_argument_coercion(&self) -> bool {
        true
    }
}

struct TestVecArgWorker;

impl Worker<Vec<TestArg>> for TestVecArgWorker {
    fn disable_argument_coercion(&self) -> bool {
        true
    }
}

fn call<Args, W>(worker: &W, args: Value) -> Args
where
    Args: for<'de> Deserialize<'de>,
    W: Worker<Args>,
{
    serde_json::from_value(worker_args::<Args, W>(worker, false, args)).unwrap()
}

#[test]
fn can_have_a_vec_with_one_or_more_items() {
    // One item
    let one = vec![arg("test A", 1337)];
    let value = serde_json::to_value(&one).unwrap();
    assert_eq!(call(&TestVecArgWorker, value), one);

    // Multiple items
    let many = vec![arg("test A", 1337), arg("test A", 1337)];
    let value = serde_json::to_value(&many).unwrap();
    assert_eq!(call(&TestVecArgWorker, value), many);
}

#[test]
fn can_have_multiple_arguments() {
    let args = (arg("test A", 1337), arg("test B", 1336));
    let value = serde_json::to_value(&args).unwrap();
    assert_eq!(call(&TestMultiArgWorker, value), args);
}

#[test]
fn can_have_a_single_tuple_argument() {
    let args = (arg("test", 1337),);
    let value = serde_json::to_value(&args).unwrap();
    assert_eq!(call(&TestTupleArgWorker, value), args);
}

#[test]
fn can_have_a_single_argument() {
    let args = arg("test", 1337);
    let value = serde_json::to_value(&args).unwrap();
    assert_eq!(call(&TestGenericWorker, value), args);
}

#[test]
fn a_stored_single_argument_is_unwrapped() {
    let args = arg("test", 1337);
    let stored = wrap_args(serde_json::to_value(&args).unwrap());
    assert!(stored.is_array());
    assert_eq!(call(&TestGenericWorker, stored), args);
}

#[test]
fn a_worker_of_unit_gets_null_whatever_is_stored() {
    let stored = Value::Array(vec![Value::from(1), Value::from(2)]);
    assert_eq!(worker_args::<(), _>(&X1Y2MyJob, true, stored), Value::Null);
    assert_eq!(worker_args::<(), _>(&X1Y2MyJob, true, Value::Null), Value::Null);
}

#[test]
fn arguments_are_wrapped_unless_they_are_an_array() {
    assert_eq!(wrap_args(Value::Null), Value::Array(vec![Value::Null]));
    assert_eq!(wrap_args(Value::from("x")), Value::Array(vec![Value::from("x")]));
    assert_eq!(wrap_args(Value::Array(vec![])), Value::Array(vec![]));
    let two = Value::Array(vec![Value::from(1), Value::from(2)]);
    assert_eq!(wrap_args(two.clone()), two);
}

#[test]
fn only_arrays_of_one_are_coerced() {
    let one = Value::Array(vec![Value::from(7)]);
    let two = Value::Array(vec![Value::from(7), Value::from(8)]);
    let none = Value::Array(vec![]);
    assert_eq!(coerce_args(one.clone(), false, false), Value::from(7));
    assert_eq!(coerce_args(one.clone(), true, false), one);
    assert_eq!(coerce_args(one, true, true), Value::Array(vec![Value::from(7)]));
    assert_eq!(coerce_args(two.clone(), false, false), two);
    assert_eq!(coerce_args(none.clone(), false, false), none);
    assert_eq!(coerce_args(Value::from("x"), false, false), Value::from("x"));
}

#[test]
fn workers_have_defaults() {
    assert!(!X1Y2MyJob.disable_argument_coercion());
    assert_eq!(X1Y2MyJob.max_retries(), 25);
    assert_eq!(WorkerRef::wrap::<(), _>(&X1Y2MyJob).max_retries(), 25);
}

struct TestRetriesWorker;

impl Worker<()> for TestRetriesWorker {
    fn max_retries(&self) -> usize {
        3
    }
}

#[test]
fn a_worker_ref_keeps_the_retries_of_its_worker() {
    let worker = WorkerRef::wrap::<(), _>(&TestRetriesWorker);
    assert_eq!(worker.clone().max_retries(), 3);
}

#[test]
fn a_worker_is_enqueued_with_its_own_options() {
    let path = "my::cool::workers::TestOpts";
    let enqueue = <TestOpts as Worker<()>>::perform_async(path, Value::Null);
    assert_eq!(enqueue.job.queue, "yolo_quue");
    assert_eq!(enqueue.job.class, "TestOpts");
    assert_eq!(enqueue.job.retry, RetryOpts::Never);
    assert_eq!(enqueue.job.unique_for, Some(Duration::from_secs(30)));
    assert_eq!(enqueue.job.args, Value::Array(vec![Value::Null]));
    match enqueue.action() {
        EnqueueAction::SetNxEx {
            key,
            value,
            ttl_secs,
        } => {
            assert_eq!(
                key,
                "sidekiq:unique:yolo_quue:TestOpts:\
                 1d8fc6ceb1f94c6326d6d5483d258fcb2e179e9869325b245d105c2219bf69fd"
            );
            assert_eq!(value, "");
            assert_eq!(ttl_secs, 30);
        }
        other => panic!("{other:?}"),
    }
}

#[test]
fn options_can_be_overridden_when_a_worker_is_enqueued() {
    let path = "my::cool::workers::TestCustomClassNameWorker";
    let opts = <TestCustomClassNameWorker as Worker<()>>::opts().queue("brolo");
    let enqueue = opts.perform_async(path, Value::from(1));
    assert_eq!(enqueue.job.queue, "brolo");
    assert_eq!(enqueue.queue_key, "queue:brolo");
    assert_eq!(enqueue.job.class, "My::Cool::Workers::TestCustomClassNameWorker");
    assert_eq!(enqueue.job.retry, RetryOpts::Yes);
    match opts.perform_in(path, Duration::from_secs(60), Value::from(1)) {
        Ok(Placement::At(zadd)) => {
            assert_eq!(zadd.key, "schedule");
            assert_eq!(zadd.payload.queue, "brolo");
            assert_eq!(zadd.payload.class, "My::Cool::Workers::TestCustomClassNameWorker");
        }
        other => panic!("{other:?}"),
    }
}

#[test]
fn a_worker_is_scheduled_with_its_own_options() {
    let path = "my::cool::workers::TestOpts";
    let day = Duration::from_secs(86_400);
    match <TestOpts as Worker<()>>::perform_in(path, day, Value::Null) {
        Ok(Placement::At(zadd)) => {
            assert_eq!(zadd.payload.queue, "yolo_quue");
            assert_eq!(zadd.payload.class, "TestOpts");
            assert!(zadd.score > 86_400);
        }
        other => panic!("{other:?}"),
    }
}
