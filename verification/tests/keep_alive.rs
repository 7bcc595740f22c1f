use ollama_params::{KeepAlive, KeepAliveWire, TimeUnit};

#[test]
fn symbol_of_each_unit() {
    assert_eq!(TimeUnit::Seconds.to_symbol(), "s");
    assert_eq!(TimeUnit::Minutes.to_symbol(), "m");
    assert_eq!(TimeUnit::Hours.to_symbol(), "hr");
}

#[test]
fn indefinitely_is_minus_one() {
    assert_eq!(KeepAlive::Indefinitely.encode(), KeepAliveWire::Integer(-1));
}

#[test]
fn unload_on_completion_is_zero() {
    assert_eq!(KeepAlive::UnloadOnCompletion.encode(), KeepAliveWire::Integer(0));
}

#[test]
fn thirty_minutes() {
    let keep = KeepAlive::Until { time: 30, unit: TimeUnit::Minutes };
    assert_eq!(keep.encode(), KeepAliveWire::Text("30m".to_string()));
}

#[test]
fn five_hours() {
    let keep = KeepAlive::Until { time: 5, unit: TimeUnit::Hours };
    assert_eq!(keep.encode(), KeepAliveWire::Text("5hr".to_string()));
}

#[test]
fn ninety_seconds() {
    let keep = KeepAlive::Until { time: 90, unit: TimeUnit::Seconds };
    assert_eq!(keep.encode(), KeepAliveWire::Text("90s".to_string()));
}

#[test]
fn zero_duration_is_still_a_string() {
    let keep = KeepAlive::Until { time: 0, unit: TimeUnit::Seconds };
    assert_eq!(keep.encode(), KeepAliveWire::Text("0s".to_string()));
    assert_ne!(keep.encode(), KeepAliveWire::Integer(0));
}

#[test]
fn largest_duration() {
    let keep = KeepAlive::Until { time: u64::MAX, unit: TimeUnit::Hours };
    assert_eq!(keep.encode(), KeepAliveWire::Text("18446744073709551615hr".to_string()));
}

#[test]
fn duration_is_count_then_symbol() {
    let units = [TimeUnit::Seconds, TimeUnit::Minutes, TimeUnit::Hours];
    let times: [u64; 7] = [0, 1, 9, 10, 300, 86_400, 4_294_967_296];
    for unit in units {
        for time in times {
            let expected = format!("{}{}", time, unit.to_symbol());
            assert_eq!(KeepAlive::Until { time, unit }.encode(), KeepAliveWire::Text(expected));
        }
    }
}

#[test]
fn encoding_is_repeatable() {
    let keep = KeepAlive::Until { time: 15, unit: TimeUnit::Minutes };
    let copy = keep.clone();
    assert_eq!(keep.encode(), copy.encode());
    assert_eq!(keep.encode(), keep.encode());
}
