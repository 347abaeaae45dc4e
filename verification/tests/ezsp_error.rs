//! What errors say and mean.

use rsezsp::{EzspError, FrameId, SlStatus};

#[test]
fn errors_say_enough_to_act_on() {
    let truncated = EzspError::TruncatedFrame {
        needed: 4,
        available: 1,
    };
    let text = truncated.to_string();
    assert!(text.contains('4') && text.contains('1'), "{text}");

    let trailing = EzspError::TrailingBytes {
        frame_id: FrameId(FrameId::VERSION),
        extra: 3,
    };
    assert!(
        trailing.to_string().contains('3'),
        "trailing bytes usually mean a wrong field width for this version, \
         so the count matters"
    );
}

#[test]
fn only_the_recoverable_failures_are_transient() {
    assert!(
        EzspError::Timeout {
            frame_id: FrameId(FrameId::VERSION)
        }
        .is_transient()
    );
    assert!(
        EzspError::NcpReset {
            frame_id: FrameId(FrameId::VERSION)
        }
        .is_transient()
    );
    assert!(
        !EzspError::TruncatedFrame {
            needed: 1,
            available: 0
        }
        .is_transient()
    );
    assert!(
        !EzspError::Status {
            status: SlStatus(SlStatus::FAIL)
        }
        .is_transient()
    );
}
