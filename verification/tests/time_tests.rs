use chrono::{Datelike, Timelike};
use evtdecode::conversions::{WindowsConversionFrom, WindowsConversionTo};
use evtdecode::time::{
    systemtime_to_timestamp, ticks_to_timestamp, timestamp_to_ticks, FileTime, SystemTime,
    TimeError, EPOCH_DELTA_TICKS, MAX_UNIX_TICKS,
};

#[test]
fn test_time_conversion() {
    let time = FileTime {
        high: 0xAAAAAAAAu32,
        low: 0x55555555u32,
    };

    let int = 0xAAAAAAAA55555555u64;
    let time_from_int: FileTime = int.win_into();

    assert_eq!(time.high, time_from_int.high);
    assert_eq!(time.low, time_from_int.low);
}

#[test]
fn test_systemtime_to_naive_datetime() {
    let system_time = SystemTime {
        year: 2024,
        month: 12,
        day: 16,
        hour: 12,
        minute: 30,
        second: 45,
        millisecond: 123,
        day_of_week: 0,
    };
    let naive_datetime = systemtime_to_timestamp(&system_time).unwrap();
    assert_eq!(naive_datetime.year, 2024);
    assert_eq!(naive_datetime.month, 12);
    assert_eq!(naive_datetime.day, 16);
    assert_eq!(naive_datetime.hour, 12);
    assert_eq!(naive_datetime.minute, 30);
    assert_eq!(naive_datetime.second, 45);
    assert_eq!(naive_datetime.subsec_millis(), 123);
}

#[test]
fn test_filetime_to_datetime() {
    let file_time = FileTime {
        low: 0xD53E8000,
        high: 0x01D96D5E,
    };
    let datetime = file_time.to_timestamp().unwrap();
    assert_eq!(datetime.year, 2023);
    assert_eq!(datetime.month, 04);
    assert_eq!(datetime.day, 12);
    assert_eq!(datetime.hour, 16);
    assert_eq!(datetime.minute, 50);
    assert_eq!(datetime.second, 5);
}

#[test]
fn tick_split_combine_round_trips() {
    for &ticks in &[0u64, 1, 0xFFFF_FFFF, 0x1_0000_0000, u64::MAX, 0x0123_4567_89AB_CDEF] {
        let ft = FileTime::from_ticks(ticks);
        assert_eq!(ft.to_ticks(), ticks);
        assert_eq!(u64::win_from(FileTime::win_from(ticks)), ticks);
    }
}

#[test]
fn tick_calendar_round_trips() {
    for &ticks in &[
        EPOCH_DELTA_TICKS,
        EPOCH_DELTA_TICKS + 1,
        EPOCH_DELTA_TICKS + 999,
        133_257_918_056_136_704, // 2023-04-12T16:50:05Z and change
        EPOCH_DELTA_TICKS + MAX_UNIX_TICKS,
    ] {
        let ts = ticks_to_timestamp(ticks).unwrap();
        assert_eq!(timestamp_to_ticks(&ts).unwrap(), ticks);
    }
}

#[test]
fn ticks_before_unix_epoch_are_refused() {
    assert_eq!(ticks_to_timestamp(0), Err(TimeError::BeforeUnixEpoch));
    assert_eq!(
        ticks_to_timestamp(EPOCH_DELTA_TICKS - 1),
        Err(TimeError::BeforeUnixEpoch)
    );
}

#[test]
fn ticks_past_the_nanosecond_range_are_refused() {
    assert_eq!(
        ticks_to_timestamp(EPOCH_DELTA_TICKS + MAX_UNIX_TICKS + 1),
        Err(TimeError::RangeExceeded)
    );
    assert_eq!(ticks_to_timestamp(u64::MAX), Err(TimeError::RangeExceeded));
}

#[test]
fn invalid_system_time_is_refused() {
    let base = SystemTime {
        year: 2023,
        month: 2,
        day: 29,
        hour: 0,
        minute: 0,
        second: 0,
        millisecond: 0,
        day_of_week: 0,
    };
    assert_eq!(
        systemtime_to_timestamp(&base),
        Err(TimeError::InvalidSystemTime)
    );
    let bad_month = SystemTime { month: 13, day: 1, ..base };
    assert_eq!(
        systemtime_to_timestamp(&bad_month),
        Err(TimeError::InvalidSystemTime)
    );
    let bad_minute = SystemTime { month: 1, day: 1, minute: 60, ..base };
    assert_eq!(
        systemtime_to_timestamp(&bad_minute),
        Err(TimeError::InvalidSystemTime)
    );
    let leap_day_2024 = SystemTime { year: 2024, month: 2, day: 29, ..base };
    assert!(systemtime_to_timestamp(&leap_day_2024).is_ok());
}

#[test]
fn tick_conversion_agrees_with_chrono() {
    for &ticks in &[
        EPOCH_DELTA_TICKS,
        133_257_918_056_136_704u64,
        EPOCH_DELTA_TICKS + 864_000_000_000 * 365,
        EPOCH_DELTA_TICKS + 123_456_789_012_345,
    ] {
        let ts = ticks_to_timestamp(ticks).unwrap();
        let nanos = (ticks - EPOCH_DELTA_TICKS) as i64 * 100;
        let dt = chrono::DateTime::from_timestamp_nanos(nanos);
        assert_eq!(ts.year as i32, dt.year());
        assert_eq!(ts.month as u32, dt.month());
        assert_eq!(ts.day as u32, dt.day());
        assert_eq!(ts.hour as u32, dt.hour());
        assert_eq!(ts.minute as u32, dt.minute());
        assert_eq!(ts.second as u32, dt.second());
        assert_eq!(ts.nanosecond, dt.timestamp_subsec_nanos());
    }
}

#[test]
fn calendar_conversion_agrees_with_chrono_across_centuries() {
    // An uneven stride of about a week, crossing the leap year 2000 and
    // the non-leap century year 2100.
    let step: u64 = 7 * 86_400 * 10_000_000 + 123_456_789;
    let mut ticks: u64 = EPOCH_DELTA_TICKS;
    for _ in 0..14000u32 {
        let ts = ticks_to_timestamp(ticks).unwrap();
        let nanos = (ticks - EPOCH_DELTA_TICKS) as i64 * 100;
        let dt = chrono::DateTime::from_timestamp_nanos(nanos);
        assert_eq!(
            (ts.year as i32, ts.month as u32, ts.day as u32),
            (dt.year(), dt.month(), dt.day())
        );
        assert_eq!(
            (ts.hour as u32, ts.minute as u32, ts.second as u32, ts.nanosecond),
            (dt.hour(), dt.minute(), dt.second(), dt.timestamp_subsec_nanos())
        );
        assert_eq!(timestamp_to_ticks(&ts).unwrap(), ticks);
        ticks += step;
    }
}

#[test]
fn century_leap_rules_hold() {
    let feb29_2000 = SystemTime {
        year: 2000,
        month: 2,
        day: 29,
        hour: 0,
        minute: 0,
        second: 0,
        millisecond: 0,
        day_of_week: 0,
    };
    assert!(systemtime_to_timestamp(&feb29_2000).is_ok());
    let feb29_2100 = SystemTime { year: 2100, ..feb29_2000 };
    assert_eq!(
        systemtime_to_timestamp(&feb29_2100),
        Err(TimeError::InvalidSystemTime)
    );
    let feb28_2100 = SystemTime { year: 2100, day: 28, ..feb29_2000 };
    let mar1_2100 = SystemTime { year: 2100, month: 3, day: 1, ..feb29_2000 };
    let t1 = timestamp_to_ticks(&systemtime_to_timestamp(&feb28_2100).unwrap()).unwrap();
    let t2 = timestamp_to_ticks(&systemtime_to_timestamp(&mar1_2100).unwrap()).unwrap();
    assert_eq!(t2 - t1, 86_400 * 10_000_000);
}
