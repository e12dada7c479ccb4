use lunvix::timefmt::{format_modified_time, stamp_at};

fn civil_from_days(z: i64) -> (i64, i64, i64) {
    let zz = z + 719468;
    let era = zz.div_euclid(146097);
    let doe = zz - era * 146097;
    let yoe = (doe - doe / 1460 + doe / 36524 - doe / 146096) / 365;
    let doy = doe - (365 * yoe + yoe / 4 - yoe / 100);
    let mp = (5 * doy + 2) / 153;
    let d = doy - (153 * mp + 2) / 5 + 1;
    let m = if mp < 10 { mp + 3 } else { mp - 9 };
    let y = yoe + era * 400;
    (if m <= 2 { y + 1 } else { y }, m, d)
}

fn year_text(y: i64) -> String {
    if (0..=9999).contains(&y) {
        format!("{:04}", y)
    } else if y > 9999 {
        format!("+{:04}", y)
    } else {
        format!("-{:04}", -y)
    }
}

fn utc_text(secs: i64) -> String {
    let (y, mo, d) = civil_from_days(secs.div_euclid(86400));
    let t = secs.rem_euclid(86400);
    format!("{}-{:02}-{:02} {:02}:{:02}:{:02} UTC", year_text(y), mo, d, t / 3600, (t % 3600) / 60, t % 60)
}

fn minute_text(secs: i64, offset: i64) -> String {
    let local = secs + offset;
    let (y, mo, d) = civil_from_days(local.div_euclid(86400));
    let t = local.rem_euclid(86400);
    format!("{:04}-{:02}-{:02} {:02}:{:02}", y, mo, d, t / 3600, (t % 3600) / 60)
}

fn sweep(lo: i64, hi: i64, steps: i64) -> Vec<i64> {
    let step = (hi - lo) / steps;
    (0..=steps).map(|i| lo + i * step).chain([lo, hi, 0, -1, 1, 86399, 86400, 951782400, 4107542400]).collect()
}

#[test]
fn modified_times_follow_the_calendar() {
    for secs in sweep(-8_334_601_228_800, 8_210_266_876_799, 20_011) {
        assert_eq!(format_modified_time(secs as u64), utc_text(secs), "secs {}", secs);
    }
}

#[test]
fn creation_stamps_follow_the_calendar() {
    for secs in sweep(0, 253_402_207_200, 20_011).into_iter().filter(|s| *s >= 0) {
        for offset in [-93_599i32, -3600, 0, 1800, 20_700, 93_599] {
            assert_eq!(stamp_at(secs as u64, Some(offset)), minute_text(secs, offset as i64), "secs {} offset {}", secs, offset);
        }
        assert_eq!(stamp_at(secs as u64, None), minute_text(secs, 0));
    }
}
