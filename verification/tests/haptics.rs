use macos_haptics::haptics::{
    perform, FromRaw, HapticFeedbackPattern, HapticFeedbackPerformanceTime, HapticRequest,
    PlatformError,
};
use macos_haptics::{is_supported, Platform, MIN_APPKIT_VERSION};

const MAC: Platform = Platform::MacOs { appkit_version: 1404 };

#[test]
fn pattern_codes() {
    assert_eq!(HapticFeedbackPattern::from_raw(0), Some(HapticFeedbackPattern::Alignment));
    assert_eq!(HapticFeedbackPattern::from_raw(1), Some(HapticFeedbackPattern::LevelChange));
    assert_eq!(HapticFeedbackPattern::from_raw(2), Some(HapticFeedbackPattern::Generic));
}

#[test]
fn performance_time_codes() {
    assert_eq!(
        HapticFeedbackPerformanceTime::from_raw(0),
        Some(HapticFeedbackPerformanceTime::Default)
    );
    assert_eq!(
        HapticFeedbackPerformanceTime::from_raw(1),
        Some(HapticFeedbackPerformanceTime::Now)
    );
    assert_eq!(
        HapticFeedbackPerformanceTime::from_raw(2),
        Some(HapticFeedbackPerformanceTime::DrawCompleted)
    );
}

#[test]
fn unknown_codes_are_absent() {
    for code in [3u64, 4, 255, 256, u32::MAX as u64, u64::MAX] {
        assert_eq!(HapticFeedbackPattern::from_raw(code), None);
        assert_eq!(HapticFeedbackPerformanceTime::from_raw(code), None);
    }
}

#[test]
fn pattern_round_trip() {
    for pattern in [
        HapticFeedbackPattern::Alignment,
        HapticFeedbackPattern::LevelChange,
        HapticFeedbackPattern::Generic,
    ] {
        assert_eq!(HapticFeedbackPattern::from_raw(pattern.to_raw()), Some(pattern));
    }
    for code in 0u64..3 {
        assert_eq!(HapticFeedbackPattern::from_raw(code).unwrap().to_raw(), code);
    }
    assert_eq!(HapticFeedbackPattern::Alignment.to_raw(), 0);
    assert_eq!(HapticFeedbackPattern::LevelChange.to_raw(), 1);
    assert_eq!(HapticFeedbackPattern::Generic.to_raw(), 2);
}

#[test]
fn performance_time_round_trip() {
    for time in [
        HapticFeedbackPerformanceTime::Default,
        HapticFeedbackPerformanceTime::Now,
        HapticFeedbackPerformanceTime::DrawCompleted,
    ] {
        assert_eq!(HapticFeedbackPerformanceTime::from_raw(time.to_raw()), Some(time));
    }
    for code in 0u64..3 {
        assert_eq!(HapticFeedbackPerformanceTime::from_raw(code).unwrap().to_raw(), code);
    }
    assert_eq!(HapticFeedbackPerformanceTime::Default.to_raw(), 0);
    assert_eq!(HapticFeedbackPerformanceTime::Now.to_raw(), 1);
    assert_eq!(HapticFeedbackPerformanceTime::DrawCompleted.to_raw(), 2);
}

#[test]
fn support_starts_at_the_minimum_version() {
    assert_eq!(MIN_APPKIT_VERSION, 1404);
    assert!(is_supported(Platform::MacOs { appkit_version: 1404 }));
    assert!(is_supported(Platform::MacOs { appkit_version: 1405 }));
    assert!(is_supported(Platform::MacOs { appkit_version: 2487 }));
    assert!(is_supported(Platform::MacOs { appkit_version: u64::MAX }));
}

#[test]
fn no_support_below_the_minimum_version() {
    assert!(!is_supported(Platform::MacOs { appkit_version: 1403 }));
    assert!(!is_supported(Platform::MacOs { appkit_version: 1343 }));
    assert!(!is_supported(Platform::MacOs { appkit_version: 0 }));
}

#[test]
fn no_support_off_macos() {
    assert!(!is_supported(Platform::Other));
}

#[test]
fn performer_keeps_pattern_and_time() {
    assert_eq!(
        perform(
            MAC,
            HapticFeedbackPattern::LevelChange,
            Some(HapticFeedbackPerformanceTime::DrawCompleted)
        ),
        Ok(HapticRequest {
            pattern: HapticFeedbackPattern::LevelChange,
            performance_time: HapticFeedbackPerformanceTime::DrawCompleted,
        })
    );
    assert_eq!(
        perform(MAC, HapticFeedbackPattern::Generic, Some(HapticFeedbackPerformanceTime::Default)),
        Ok(HapticRequest {
            pattern: HapticFeedbackPattern::Generic,
            performance_time: HapticFeedbackPerformanceTime::Default,
        })
    );
}

#[test]
fn performer_defaults_to_now() {
    assert_eq!(
        perform(MAC, HapticFeedbackPattern::Alignment, None),
        Ok(HapticRequest {
            pattern: HapticFeedbackPattern::Alignment,
            performance_time: HapticFeedbackPerformanceTime::Now,
        })
    );
}

#[test]
fn performer_refuses_unsupported_platforms() {
    assert_eq!(perform(Platform::Other, HapticFeedbackPattern::Alignment, None), Err(PlatformError));
    assert_eq!(
        perform(
            Platform::MacOs { appkit_version: 1403 },
            HapticFeedbackPattern::Generic,
            Some(HapticFeedbackPerformanceTime::Now)
        ),
        Err(PlatformError)
    );
}
