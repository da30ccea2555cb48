use sched_core::consts::NO_PRIORITIES;
use sched_core::id::{
    high_priority, low_priority, normal_priority, realtime_priority, TaskId, TaskPriority,
    HIGH_RANK, LOW_RANK, NORMAL_RANK, REALTIME_RANK,
};
use std::cmp::Ordering;

#[test]
fn task_id_keeps_its_raw_value() {
    assert_eq!(TaskId::from(0).into(), 0);
    assert_eq!(TaskId::from(42).into(), 42);
    assert_eq!(TaskId::from(u32::MAX).into(), u32::MAX);
}

#[test]
fn task_priority_keeps_its_raw_rank() {
    assert_eq!(TaskPriority::from(0).into(), 0);
    assert_eq!(TaskPriority::from(24).into(), 24);
    assert_eq!(TaskPriority::from(u8::MAX).into(), u8::MAX);
}

#[test]
fn task_ids_are_equal_when_their_raw_values_are() {
    assert_eq!(TaskId::from(3), TaskId::from(3));
    assert_ne!(TaskId::from(3), TaskId::from(4));
    let id = TaskId::from(8);
    let copy = id;
    assert_eq!(id, copy);
    assert_eq!(id.clone(), copy);
}

#[test]
fn task_ids_are_ordered_by_raw_value() {
    assert!(TaskId::from(1) < TaskId::from(2));
    assert!(TaskId::from(2) > TaskId::from(1));
    assert!(TaskId::from(2) <= TaskId::from(2));
    assert!(TaskId::from(2) >= TaskId::from(2));
    assert!(!(TaskId::from(2) < TaskId::from(2)));
    assert_eq!(TaskId::from(1).partial_cmp(&TaskId::from(2)), Some(Ordering::Less));
    assert_eq!(TaskId::from(2).partial_cmp(&TaskId::from(2)), Some(Ordering::Equal));
    assert_eq!(TaskId::from(3).partial_cmp(&TaskId::from(2)), Some(Ordering::Greater));
    assert_eq!(TaskId::from(1).cmp(&TaskId::from(2)), Ordering::Less);
    assert_eq!(TaskId::from(2).cmp(&TaskId::from(2)), Ordering::Equal);
    assert_eq!(TaskId::from(3).cmp(&TaskId::from(2)), Ordering::Greater);
}

#[test]
fn both_orders_of_task_ids_agree() {
    let raws = [0u32, 1, 2, 255, 256, 65_535, u32::MAX - 1, u32::MAX];
    for a in raws {
        for b in raws {
            let (x, y) = (TaskId::from(a), TaskId::from(b));
            assert_eq!(x.partial_cmp(&y), Some(a.cmp(&b)));
            assert_eq!(x.cmp(&y), a.cmp(&b));
            assert_eq!(x == y, a == b);
        }
    }
}

#[test]
fn both_orders_of_priorities_agree() {
    for a in 0..=u8::MAX {
        for b in [0u8, 1, 23, 24, 25, 30, 31, 32, 254, 255] {
            let (x, y) = (TaskPriority::from(a), TaskPriority::from(b));
            assert_eq!(x.partial_cmp(&y), Some(a.cmp(&b)));
            assert_eq!(x.cmp(&y), a.cmp(&b));
            assert_eq!(x < y, a < b);
            assert_eq!(x == y, a == b);
        }
    }
}

#[test]
fn landmark_priorities_are_ordered_by_urgency() {
    assert_eq!(realtime_priority().into(), 0);
    assert_eq!(high_priority().into(), 0);
    assert_eq!(normal_priority().into(), 24);
    assert_eq!(low_priority().into() as usize, NO_PRIORITIES - 1);
    assert_eq!(low_priority().into(), 31);
    assert_eq!(realtime_priority(), high_priority());
    assert!(realtime_priority() < normal_priority());
    assert!(high_priority() < normal_priority());
    assert!(normal_priority() < low_priority());
    assert!(realtime_priority() < low_priority());
}

#[test]
fn landmark_ranks_match_the_landmark_priorities() {
    assert_eq!(REALTIME_RANK, 0);
    assert_eq!(HIGH_RANK, 0);
    assert_eq!(NORMAL_RANK, 24);
    assert_eq!(LOW_RANK as usize, NO_PRIORITIES - 1);
    assert_eq!(TaskPriority::from(REALTIME_RANK), realtime_priority());
    assert_eq!(TaskPriority::from(HIGH_RANK), high_priority());
    assert_eq!(TaskPriority::from(NORMAL_RANK), normal_priority());
    assert_eq!(TaskPriority::from(LOW_RANK), low_priority());
}

#[test]
fn landmark_priorities_are_levels() {
    for prio in [realtime_priority(), high_priority(), normal_priority(), low_priority()] {
        assert!((prio.into() as usize) < NO_PRIORITIES);
        assert!(prio.is_level());
    }
}

#[test]
fn levels_end_at_the_low_priority() {
    assert_eq!(NO_PRIORITIES, 32);
    for rank in 0..=u8::MAX {
        assert_eq!(TaskPriority::from(rank).is_level(), rank <= 31);
    }
    assert!(TaskPriority::from(31).is_level());
    assert!(!TaskPriority::from(32).is_level());
}

#[test]
fn task_id_prints_in_decimal() {
    assert_eq!(TaskId::from(0).to_string(), "0");
    assert_eq!(TaskId::from(7).to_string(), "7");
    assert_eq!(TaskId::from(10).to_string(), "10");
    assert_eq!(TaskId::from(1909).to_string(), "1909");
    assert_eq!(TaskId::from(1_000_000).to_string(), "1000000");
    assert_eq!(TaskId::from(u32::MAX).to_string(), "4294967295");
}

#[test]
fn task_priority_prints_in_decimal() {
    assert_eq!(TaskPriority::from(0).to_string(), "0");
    assert_eq!(TaskPriority::from(9).to_string(), "9");
    assert_eq!(normal_priority().to_string(), "24");
    assert_eq!(low_priority().to_string(), "31");
    assert_eq!(TaskPriority::from(100).to_string(), "100");
    assert_eq!(TaskPriority::from(u8::MAX).to_string(), "255");
}

#[test]
fn printed_tags_match_the_integers() {
    for raw in (0..5000u32).chain([65_535, 65_536, 99_999, 100_000, 123_456_789]) {
        assert_eq!(TaskId::from(raw).to_string(), format!("{}", raw));
    }
    for raw in 0..=u8::MAX {
        assert_eq!(TaskPriority::from(raw).to_string(), format!("{}", raw));
    }
}

#[test]
fn tags_print_for_debugging() {
    assert_eq!(format!("{:?}", TaskId::from(5)), "TaskId(5)");
    assert_eq!(format!("{:?}", TaskPriority::from(24)), "TaskPriority(24)");
}
