use statusline::tick::{
    AC_ONLINE_PATH, BAT1_CAP_PATH, BAT1_STAT_PATH, BAT_CAP_PATH, BAT_STAT_PATH, CPU_STAT_PATH,
    CPU_TEMP_PATH, MEMINFO_PATH, SEGMENTS, TICK_MILLIS,
};
use statusline::{
    p_ac_online, p_bat, p_cpu_temp, p_cpu_usage, p_date_at, p_full, p_lang, p_mem_usage,
    p_time_at, protocol_header, render_record, tick, tick_at, CpuCounters, PrintColor, Segment,
    Sources, WallClock,
};

fn noon() -> WallClock {
    WallClock { year: 2024, month: 3, day: 9, weekday: 6, hour: 12, minute: 0, second: 30 }
}

fn some(text: &str) -> Option<String> {
    Some(String::from(text))
}

fn full_sources() -> Sources {
    Sources {
        cpu_temp: some("67000"),
        cpu_stat: some("cpu  300 0 100 600 0 0 0 0 0 0"),
        meminfo: some(
            "MemTotal: 1000 kB\nMemFree: 1 kB\nMemAvailable: 400 kB\nBuffers: 1 kB\nCached: 1 kB\nSwapCached: 2048 kB\n",
        ),
        external_capacity: None,
        external_status: None,
        internal_capacity: some("75"),
        internal_status: some("Charging"),
        ac_online: some("1"),
        inputs: Some(vec![None, some("Russian")]),
    }
}

#[test]
fn constants_of_the_sources() {
    assert_eq!(CPU_TEMP_PATH, "/sys/class/thermal/thermal_zone0/temp");
    assert_eq!(AC_ONLINE_PATH, "/sys/class/power_supply/AC/online");
    assert_eq!(BAT_CAP_PATH, "/sys/class/power_supply/BAT0/capacity");
    assert_eq!(BAT_STAT_PATH, "/sys/class/power_supply/BAT0/status");
    assert_eq!(BAT1_CAP_PATH, "/sys/class/power_supply/BAT1/capacity");
    assert_eq!(BAT1_STAT_PATH, "/sys/class/power_supply/BAT1/status");
    assert_eq!(CPU_STAT_PATH, "/proc/stat");
    assert_eq!(MEMINFO_PATH, "/proc/meminfo");
    assert_eq!(TICK_MILLIS, 500);
    assert_eq!(SEGMENTS, 9);
}

#[test]
fn header_opens_the_array() {
    assert_eq!(protocol_header(), "{ \"version\": 1 }\n[");
}

#[test]
fn tick_with_nothing_readable() {
    let prev = CpuCounters { user: 5, user_low: 6, system: 7, idle: 8 };
    let (held, record) = tick_at(prev, &Sources::unavailable(), &noon());
    assert_eq!(held, prev);
    assert_eq!(record.len(), 9);
    let texts: Vec<&str> = record.iter().map(|s| s.text.as_str()).collect();
    assert_eq!(
        texts,
        vec![
            "CPU NA°C",
            "CPU NA",
            "RAM NA",
            "E NA",
            "I NA",
            "AC NA",
            "NaN",
            "Sat 09:Mar:2024",
            "12:00:30"
        ]
    );
    let colors: Vec<PrintColor> = record.iter().map(|s| s.color).collect();
    assert_eq!(
        colors,
        vec![
            PrintColor::Red2,
            PrintColor::White,
            PrintColor::White,
            PrintColor::Red2,
            PrintColor::Red2,
            PrintColor::Red2,
            PrintColor::Red,
            PrintColor::White,
            PrintColor::White
        ]
    );
    let marked = texts.iter().filter(|t| t.contains("NA") || **t == "NaN").count();
    assert_eq!(marked, 7);
}

#[test]
fn tick_with_every_source() {
    let (held, record) = tick_at(CpuCounters::new(), &full_sources(), &noon());
    assert_eq!(held, CpuCounters { user: 300, user_low: 0, system: 100, idle: 600 });
    let texts: Vec<&str> = record.iter().map(|s| s.text.as_str()).collect();
    assert_eq!(
        texts,
        vec![
            "CPU 67°C",
            "CPU 40",
            "RAM 60% SWAP 2Mb",
            "E NA",
            "I↑75",
            "⚡",
            "Rus",
            "Sat 09:Mar:2024",
            "12:00:30"
        ]
    );
    let colors: Vec<PrintColor> = record.iter().map(|s| s.color).collect();
    assert_eq!(
        colors,
        vec![
            PrintColor::Yellow,
            PrintColor::White,
            PrintColor::Red,
            PrintColor::Red2,
            PrintColor::Green,
            PrintColor::Green,
            PrintColor::Blue,
            PrintColor::White,
            PrintColor::White
        ]
    );
}

#[test]
fn tick_is_the_nine_formatters_in_order() {
    let sources = full_sources();
    let prev = CpuCounters { user: 100, user_low: 0, system: 0, idle: 100 };
    let (held, record) = tick_at(prev, &sources, &noon());
    let (expected_held, usage) = p_cpu_usage(prev, sources.cpu_stat.as_deref());
    assert_eq!(held, expected_held);
    let blocks: Vec<String> = record.iter().map(|s| s.render()).collect();
    assert_eq!(
        blocks,
        vec![
            p_cpu_temp(sources.cpu_temp.as_deref()),
            usage,
            p_mem_usage(sources.meminfo.as_deref()),
            p_bat(sources.external_capacity.as_deref(), sources.external_status.as_deref(), "E"),
            p_bat(sources.internal_capacity.as_deref(), sources.internal_status.as_deref(), "I"),
            p_ac_online(sources.ac_online.as_deref()),
            p_lang(sources.inputs.as_ref()),
            p_date_at(&noon()),
            p_time_at(&noon()),
        ]
    );
}

#[test]
fn ticks_thread_the_counters() {
    let mut sources = Sources::unavailable();
    sources.cpu_stat = some("cpu 1000 0 0 1000");
    let (held, record) = tick_at(CpuCounters::new(), &sources, &noon());
    assert_eq!(record[1].text, "CPU 50");
    sources.cpu_stat = some("cpu 10 0 0 10");
    let (held, record) = tick_at(held, &sources, &noon());
    assert_eq!(record[1].text, "CPU NA");
    assert_eq!(held, CpuCounters { user: 10, user_low: 0, system: 0, idle: 10 });
    sources.cpu_stat = None;
    let (held, record) = tick_at(held, &sources, &noon());
    assert_eq!(record[1].text, "CPU NA");
    assert_eq!(held, CpuCounters { user: 10, user_low: 0, system: 0, idle: 10 });
    sources.cpu_stat = some("cpu 13 0 0 11");
    let (held, record) = tick_at(held, &sources, &noon());
    assert_eq!(record[1].text, "CPU 75");
    assert_eq!(held, CpuCounters { user: 13, user_low: 0, system: 0, idle: 11 });
    assert_eq!(record.len(), 9);
}

#[test]
fn tick_reads_the_clock() {
    let (held, record) = tick(CpuCounters::new(), &Sources::unavailable());
    assert_eq!(held, CpuCounters::new());
    assert_eq!(record.len(), 9);
    assert_eq!(record[0].text, "CPU NA°C");
    assert_eq!(record[6].text, "NaN");
    let date = &record[7].text;
    let time = &record[8].text;
    assert_eq!(time.chars().count(), 8);
    assert_eq!(time.chars().nth(2), Some(':'));
    assert_eq!(time.chars().nth(5), Some(':'));
    assert!(date.chars().count() >= 15);
    assert_eq!(date.chars().nth(3), Some(' '));
    assert_eq!(date.chars().nth(6), Some(':'));
    assert_eq!(date.chars().nth(10), Some(':'));
    assert_eq!(record[7].color, PrintColor::White);
    assert_eq!(record[8].color, PrintColor::White);
}

#[test]
fn record_is_an_array_with_a_trailing_comma() {
    let segments = vec![
        Segment { text: String::from("a"), color: PrintColor::White },
        Segment { text: String::from("b"), color: PrintColor::Red },
    ];
    assert_eq!(
        render_record(&segments),
        "[{\"full_text\":\"a\",\"color\":\"#FFFFFF\"},{\"full_text\":\"b\",\"color\":\"#ed3d40\"}],"
    );
    let one = vec![Segment { text: String::from("a"), color: PrintColor::Blue }];
    assert_eq!(render_record(&one), "[{\"full_text\":\"a\",\"color\":\"#66a1f9\"}],");
    assert_eq!(render_record(&Vec::new()), "[],");
}

#[test]
fn record_of_a_tick_on_the_wire() {
    let (_, record) = tick_at(CpuCounters::new(), &Sources::unavailable(), &noon());
    let line = render_record(&record);
    let expected = format!(
        "[{},{},{},{},{},{},{},{},{}],",
        p_full("CPU NA°C", PrintColor::Red2),
        p_full("CPU NA", PrintColor::White),
        p_full("RAM NA", PrintColor::White),
        p_full("E NA", PrintColor::Red2),
        p_full("I NA", PrintColor::Red2),
        p_full("AC NA", PrintColor::Red2),
        p_full("NaN", PrintColor::Red),
        p_full("Sat 09:Mar:2024", PrintColor::White),
        p_full("12:00:30", PrintColor::White)
    );
    assert_eq!(line, expected);
    assert_eq!(line.matches("full_text").count(), 9);
}
