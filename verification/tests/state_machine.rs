//! Capture, restore and deduplication of state machines, and their factories.

use multiraft::ApplyOut;
use multiraft::CaptureError;
use multiraft::CaptureRefusal;
use multiraft::CounterError;
use multiraft::CounterFsm;
use multiraft::FsmFactoryContext;
use multiraft::GroupId;
use multiraft::StateMachine;
use multiraft::StateMachineFactory;

// Catch a fallback that allocates through the unbounded legacy snapshot method.
struct Legacy;
impl StateMachine for Legacy {
    type Error = std::io::Error;
    fn apply(&mut self, _: GroupId, _: u64, _: &[u8]) -> Result<ApplyOut, Self::Error> {
        Ok(ApplyOut::default())
    }
    fn snapshot(&self, _: GroupId) -> Result<Vec<u8>, Self::Error> {
        panic!("legacy unbounded capture must not run")
    }
    fn restore(&mut self, _: GroupId, _: &[u8]) -> Result<(), Self::Error> {
        Ok(())
    }
}

#[derive(Default)]
struct ProbeFsm {
    value: i64,
}

impl ProbeFsm {
    fn new() -> Self {
        Self::default()
    }
}

impl StateMachine for ProbeFsm {
    type Error = std::io::Error;

    fn apply(&mut self, _group: u64, _index: u64, data: &[u8]) -> Result<ApplyOut, Self::Error> {
        let bytes: [u8; 8] = data
            .try_into()
            .map_err(|_| std::io::Error::new(std::io::ErrorKind::InvalidData, "probe delta"))?;
        self.value += i64::from_le_bytes(bytes);
        Ok(ApplyOut::default())
    }

    fn snapshot(&self, _group: u64) -> Result<Vec<u8>, Self::Error> {
        Ok(self.value.to_le_bytes().to_vec())
    }

    fn restore(&mut self, _group: u64, snapshot: &[u8]) -> Result<(), Self::Error> {
        let bytes: [u8; 8] = snapshot
            .try_into()
            .map_err(|_| std::io::Error::new(std::io::ErrorKind::InvalidData, "probe snapshot"))?;
        self.value = i64::from_le_bytes(bytes);
        Ok(())
    }
}

#[test]
fn legacy_fsm_refuses_bounded_capture_without_allocating() {
    assert!(matches!(
        Legacy.freeze_bounded(1, 64),
        Err(CaptureError::Refused(CaptureRefusal::Unsupported))
    ));
}

#[test]
fn counter_capture_preserves_state_and_dedup_with_exact_bound() {
    let mut fsm = CounterFsm::new();
    fsm.apply(7, 1, &CounterFsm::encode_add(5, 1)).unwrap();
    let data = fsm.freeze_bounded(7, 7).unwrap();
    assert_eq!(data, b"[5,[1]]");
    assert!(matches!(
        fsm.freeze_bounded(7, 6),
        Err(CaptureError::Refused(CaptureRefusal::SizeLimit))
    ));
    let mut restored = CounterFsm::new();
    restored.restore(7, &data).unwrap();
    restored.apply(7, 2, &CounterFsm::encode_add(5, 1)).unwrap();
    assert_eq!(restored.value(7), 5);
}

#[test]
fn closure_factory_is_public_and_receives_immutable_context() {
    let factory = |context: FsmFactoryContext| -> anyhow::Result<ProbeFsm> {
        let _node_id = context.node_id();
        let _group_id = context.group_id();
        Ok(ProbeFsm::new())
    };
    fn assert_factory<F: StateMachineFactory<ProbeFsm>>(_: &F) {}
    assert_factory(&factory);
}

#[test]
fn factory_closures_see_node_and_group() {
    let factory = |context: FsmFactoryContext| -> anyhow::Result<ProbeFsm> {
        if context.group_id() == 13 {
            return Err(anyhow::Error::msg("no such machine"));
        }
        Ok(ProbeFsm {
            value: (context.node_id() * 100 + context.group_id()) as i64,
        })
    };
    assert_eq!(factory.create(FsmFactoryContext::new(3, 9)).unwrap().value, 309);
    let failed = factory.create(FsmFactoryContext::new(3, 13));
    assert_eq!(failed.err().unwrap().to_string(), "no such machine");
}

#[test]
fn commands_are_sixteen_little_endian_bytes() {
    assert_eq!(
        CounterFsm::encode_add(-2, 0x0102),
        vec![
            0x02, 0x01, 0, 0, 0, 0, 0, 0, 0xfe, 0xff, 0xff, 0xff, 0xff, 0xff, 0xff, 0xff
        ]
    );
    assert_eq!(
        CounterFsm::encode_add(i64::MIN, u64::MAX),
        vec![255, 255, 255, 255, 255, 255, 255, 255, 0, 0, 0, 0, 0, 0, 0, 128]
    );
}

#[test]
fn short_command_is_an_error_and_changes_nothing() {
    let mut fsm = CounterFsm::new();
    fsm.apply(1, 1, &CounterFsm::encode_add(4, 9)).unwrap();
    let error = fsm.apply(1, 2, &[0; 15]).unwrap_err();
    assert!(matches!(&error, CounterError::Decode(text) if !text.is_empty()));
    assert!(error.to_string().starts_with("decode: "));
    assert_eq!(fsm.value(1), 4);
    // What follows a command is ignored.
    let mut long = CounterFsm::encode_add(6, 10);
    long.push(7);
    assert!(fsm.apply(1, 3, &long).unwrap().effects.is_empty());
    assert_eq!(fsm.value(1), 10);
}

#[test]
fn repeated_keys_apply_once_and_groups_are_independent() {
    let mut fsm = CounterFsm::new();
    fsm.apply(1, 1, &CounterFsm::encode_add(4, 9)).unwrap();
    fsm.apply(1, 2, &CounterFsm::encode_add(100, 9)).unwrap();
    fsm.apply(2, 3, &CounterFsm::encode_add(-7, 9)).unwrap();
    assert_eq!(fsm.value(1), 4);
    assert_eq!(fsm.value(2), -7);
    assert_eq!(fsm.value(3), 0);
}

#[test]
fn snapshots_restore_value_and_keys() {
    let mut fsm = CounterFsm::new();
    for key in 0..40u64 {
        fsm.apply(5, key, &CounterFsm::encode_add(-1, key * key)).unwrap();
    }
    let bytes = fsm.snapshot(5).unwrap();
    let frozen = fsm.freeze_bounded(5, bytes.len()).unwrap();
    assert_eq!(frozen.len(), bytes.len());
    assert!(matches!(
        fsm.freeze_bounded(5, bytes.len() - 1),
        Err(CaptureError::Refused(CaptureRefusal::SizeLimit))
    ));
    assert_eq!(fsm.freeze_for_snapshot(5).unwrap().len(), bytes.len());
    for image in [bytes, frozen] {
        let mut copy = CounterFsm::new();
        copy.apply(5, 1, &CounterFsm::encode_add(1000, 77)).unwrap();
        copy.apply(6, 1, &CounterFsm::encode_add(3, 1)).unwrap();
        copy.restore(5, &image).unwrap();
        assert_eq!(copy.value(5), -40);
        assert_eq!(copy.value(6), 3);
        for key in 0..40u64 {
            copy.apply(5, key, &CounterFsm::encode_add(9, key * key)).unwrap();
        }
        assert_eq!(copy.value(5), -40);
        // The key from before the restore is forgotten.
        copy.apply(5, 50, &CounterFsm::encode_add(9, 77)).unwrap();
        assert_eq!(copy.value(5), -31);
    }
}

#[test]
fn untouched_group_captures_as_zero_without_keys() {
    let fsm = CounterFsm::new();
    assert_eq!(fsm.snapshot(1).unwrap(), b"[0,[]]");
    assert_eq!(fsm.freeze_bounded(1, 6).unwrap(), b"[0,[]]");
    assert!(matches!(
        fsm.freeze_bounded(1, 5),
        Err(CaptureError::Refused(CaptureRefusal::SizeLimit))
    ));
}

#[test]
fn restore_rejects_what_is_no_snapshot() {
    let mut fsm = CounterFsm::new();
    fsm.apply(1, 1, &CounterFsm::encode_add(4, 9)).unwrap();
    for bad in [&b"[5,[1]"[..], b"[5]", b"{}", b"[5,[1]] x", b"[5,[-1]]", b""] {
        let error = fsm.restore(1, bad).unwrap_err();
        assert!(error.to_string().starts_with("decode: "));
        assert_eq!(fsm.value(1), 4);
    }
    fsm.restore(1, b" [ 9223372036854775807 , [1, 1, 2] ] ").unwrap();
    assert_eq!(fsm.value(1), i64::MAX);
}

#[test]
fn restore_reads_extreme_values_back() {
    let mut fsm = CounterFsm::new();
    fsm.apply(1, 1, &CounterFsm::encode_add(i64::MIN, u64::MAX)).unwrap();
    let image = fsm.snapshot(1).unwrap();
    assert_eq!(image, b"[-9223372036854775808,[18446744073709551615]]");
    assert_eq!(fsm.freeze_bounded(1, 45).unwrap(), image);
    assert!(fsm.freeze_bounded(1, 44).is_err());
    let mut copy = CounterFsm::new();
    copy.restore(1, &image).unwrap();
    assert_eq!(copy.value(1), i64::MIN);
}

#[test]
fn commands_that_would_overflow_are_told_apart() {
    let mut fsm = CounterFsm::new();
    let largest = CounterFsm::encode_add(i64::MAX, 1);
    assert!(fsm.can_apply(1, &largest));
    fsm.apply(1, 1, &largest).unwrap();
    assert!(!fsm.can_apply(1, &CounterFsm::encode_add(1, 2)));
    assert!(fsm.can_apply(1, &CounterFsm::encode_add(0, 2)));
    assert!(fsm.can_apply(1, &CounterFsm::encode_add(-1, 2)));
    assert!(fsm.can_apply(2, &CounterFsm::encode_add(1, 2)));
    // A key that was seen changes nothing, and what is no command is an error.
    assert!(fsm.can_apply(1, &CounterFsm::encode_add(1, 1)));
    assert!(fsm.can_apply(1, &[0; 3]));
}

#[test]
fn captures_of_equal_states_are_the_same_bytes() {
    let mut first = CounterFsm::new();
    let mut second = CounterFsm::new();
    let keys = [40_u64, 7, 1000, 3, 12, 999, 8];
    for (index, key) in keys.iter().enumerate() {
        first.apply(1, index as u64, &CounterFsm::encode_add(2, *key)).unwrap();
    }
    for (index, key) in keys.iter().rev().enumerate() {
        second.apply(5, index as u64, &CounterFsm::encode_add(2, *key)).unwrap();
    }
    let bytes = first.snapshot(1).unwrap();
    assert_eq!(bytes, b"[14,[3,7,8,12,40,999,1000]]");
    assert_eq!(second.snapshot(5).unwrap(), bytes);
    for bound in [bytes.len(), bytes.len() + 1, usize::MAX] {
        assert_eq!(first.freeze_bounded(1, bound).unwrap(), bytes);
    }
    for bound in [0, 1, bytes.len() - 1] {
        assert!(matches!(
            first.freeze_bounded(1, bound),
            Err(CaptureError::Refused(CaptureRefusal::SizeLimit))
        ));
    }
}
