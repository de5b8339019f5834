use portwatch::commands::system_info::{
    card_named, dxdiag_summary, fields_of_row, gpu_vendor, memory_stated, number_at_start,
    number_before, parse_dxdiag_cards, parse_smi_rows, parse_uptime, piece_after_colon,
    vendor_from_lowercase, GraphicsCard,
};

fn card(name: &str, vendor: &str, memory: u64) -> GraphicsCard {
    GraphicsCard { name: name.to_string(), vendor: vendor.to_string(), memory }
}

fn expected_vendor(name: &str) -> String {
    let lower = name.to_lowercase();
    if lower.contains("nvidia") {
        "NVIDIA".to_string()
    } else if lower.contains("amd") || lower.contains("radeon") {
        "AMD".to_string()
    } else if lower.contains("intel") {
        "Intel".to_string()
    } else {
        "Unknown".to_string()
    }
}

fn expected_cards(content: &str) -> Vec<GraphicsCard> {
    let mut found = Vec::new();
    let mut current_card: Option<String> = None;
    let mut current_memory: Option<u64> = None;
    for line in content.lines() {
        if line.contains("Card name:") {
            if let Some(name) = current_card.take() {
                let vendor = expected_vendor(&name);
                found.push(GraphicsCard { name, vendor, memory: current_memory.unwrap_or(0) });
                current_memory = None;
            }
            if let Some(name) = line.split(':').nth(1) {
                let name = name.trim().to_string();
                if !name.contains("Microsoft Basic Display") && !name.contains("Remote") {
                    current_card = Some(name);
                }
            }
        } else if line.contains("Dedicated Memory:") && current_card.is_some() {
            if let Some(mem_str) = line.split(':').nth(1) {
                let mem_str = mem_str.trim();
                if mem_str.contains("MB") {
                    if let Some(num_str) = mem_str.split_whitespace().next() {
                        if let Ok(mb) = num_str.parse::<u64>() {
                            current_memory = Some(mb.wrapping_mul(1024).wrapping_mul(1024));
                        }
                    }
                } else if mem_str.contains("GB") {
                    if let Some(num_str) = mem_str.split_whitespace().next() {
                        if let Ok(gb) = num_str.parse::<u64>() {
                            current_memory =
                                Some(gb.wrapping_mul(1024).wrapping_mul(1024).wrapping_mul(1024));
                        }
                    }
                }
            }
        }
    }
    if let Some(name) = current_card {
        let vendor = expected_vendor(&name);
        found.push(GraphicsCard { name, vendor, memory: current_memory.unwrap_or(0) });
    }
    found
}

fn expected_summary(content: &str) -> String {
    let mut gpu_names = Vec::new();
    let mut gpu_memory = Vec::new();
    for line in content.lines() {
        if line.contains("Card name:") {
            if let Some(name) = line.split(':').nth(1) {
                gpu_names.push(name.trim().to_string());
            }
        }
        if line.contains("Dedicated Memory:") {
            if let Some(memory) = line.split(':').nth(1) {
                gpu_memory.push(memory.trim().to_string());
            }
        }
    }
    let mut parts = Vec::new();
    for (i, name) in gpu_names.iter().enumerate() {
        let memory = if i < gpu_memory.len() { gpu_memory[i].clone() } else { "Unknown".to_string() };
        parts.push(format!("{} ({})", name, memory));
    }
    let shown = parts.join(", ");
    if shown.is_empty() {
        "Unknown GPU".to_string()
    } else {
        shown
    }
}

fn expected_rows(output: &str) -> Vec<Vec<String>> {
    let mut rows = Vec::new();
    if !output.trim().is_empty() && !output.contains("not found") {
        for line in output.trim().split('\n') {
            let parts: Vec<&str> = line.split(',').map(|s| s.trim()).collect();
            if parts.len() >= 6 {
                rows.push(parts[..6].iter().map(|s| s.to_string()).collect());
            }
        }
    }
    rows
}

fn expected_uptime(output: &str) -> Option<u64> {
    let parts: Vec<&str> = output.split(':').collect();
    if parts.len() < 2 {
        return None;
    }
    let time_str = parts[1..].join(":").trim().to_string();
    let mut total: u64 = 0;
    for (label, unit) in [("Days", 86400u64), ("Hours", 3600), ("Minutes", 60), ("Seconds", 1)] {
        if let Some(at) = time_str.find(label) {
            if let Some(token) = time_str[..at].trim().split_whitespace().last() {
                if let Ok(count) = token.parse::<u64>() {
                    total = total.wrapping_add(count.wrapping_mul(unit));
                }
            }
        }
    }
    if total > 0 {
        Some(total)
    } else {
        None
    }
}

const REPORTS: [&str; 10] = [
    "",
    "Card name: NVIDIA GeForce RTX 3060\r\nDedicated Memory: 12129 MB\r\n",
    "   Card name: Intel(R) UHD Graphics 630\n   Manufacturer: Intel\n   Dedicated Memory: 128 MB\n   Card name: AMD Radeon RX 580\n   Dedicated Memory: 8 GB\n",
    "Card name: Microsoft Basic Display Adapter\nDedicated Memory: 1 MB\nCard name: Remote Display\nDedicated Memory: 7 MB\nCard name: Matrox G200\n",
    "Dedicated Memory: 5 MB\nCard name: A\nDedicated Memory: n/a MB\nDedicated Memory: 3 GB\nDedicated Memory: 4 TB\nCard name: B",
    "Card name\nCard name:\nCard name: : x\nDedicated Memory: 18446744073709551615 MB",
    "Card name: X\nDedicated Memory: 17592186044416 MB\nCard name: Y\nDedicated Memory: 99999999999 GB\n",
    "x Card name: first: second\nCard name: Dedicated Memory: 4 MB\nDedicated Memory:\n",
    "Card name: 显卡 Intel\nDedicated Memory:  2048   MB  shared\nCard name: KELVIN \u{212A}\nDedicated Memory: GB 1",
    "Card name: a\nCard name: b\nCard name: c\nDedicated Memory: 1 MB\nDedicated Memory: 2 MB",
];

#[test]
fn vendor_goes_by_the_name() {
    assert_eq!(gpu_vendor("NVIDIA GeForce RTX 3060"), "NVIDIA");
    assert_eq!(gpu_vendor("AMD Radeon RX 580"), "AMD");
    assert_eq!(gpu_vendor("Radeon Pro"), "AMD");
    assert_eq!(gpu_vendor("Intel(R) UHD Graphics"), "Intel");
    assert_eq!(gpu_vendor("Matrox G200"), "Unknown");
    assert_eq!(gpu_vendor(""), "Unknown");
    assert_eq!(gpu_vendor("Intel with NVIDIA Optimus"), "NVIDIA");
    assert_eq!(gpu_vendor("intel amd"), "AMD");
    assert_eq!(vendor_from_lowercase("NVIDIA"), "Unknown");
    assert_eq!(vendor_from_lowercase("xx nvidia xx"), "NVIDIA");
    for name in ["NVİDİA", "İNTEL", "RADEON", "ıntel", "AMD", "aMd", "Ａｍｄ"] {
        assert_eq!(gpu_vendor(name), expected_vendor(name), "{:?}", name);
    }
}

#[test]
fn piece_after_the_first_colon() {
    assert_eq!(piece_after_colon("a: b : c"), Some(" b "));
    assert_eq!(piece_after_colon("a:"), Some(""));
    assert_eq!(piece_after_colon(":"), Some(""));
    assert_eq!(piece_after_colon("no colon"), None);
    assert_eq!(piece_after_colon(""), None);
}

#[test]
fn numbers_and_memory() {
    assert_eq!(number_at_start("  12 MB"), Some(12));
    assert_eq!(number_at_start("MB 12"), None);
    assert_eq!(number_at_start(""), None);
    assert_eq!(number_at_start("18446744073709551616"), None);
    assert_eq!(memory_stated("Dedicated Memory: 512 MB"), Some(512 * 1024 * 1024));
    assert_eq!(memory_stated("Dedicated Memory: 8 GB"), Some(8 * 1024 * 1024 * 1024));
    assert_eq!(memory_stated("Dedicated Memory: 1 MB or 1 GB"), Some(1024 * 1024));
    assert_eq!(memory_stated("Dedicated Memory: many MB"), None);
    assert_eq!(memory_stated("Dedicated Memory: 8 TB"), None);
    assert_eq!(memory_stated("Dedicated Memory 8 MB"), None);
    assert_eq!(memory_stated("Dedicated Memory: 17592186044416 MB"), Some(0));
    assert_eq!(card_named("Card name:  GeForce  "), Some("GeForce"));
    assert_eq!(card_named("Card name: Microsoft Basic Display Adapter"), None);
    assert_eq!(card_named("Card name: Remote Desktop"), None);
    assert_eq!(card_named("Card name"), None);
    assert_eq!(card_named("Card name:"), Some(""));
}

#[test]
fn cards_of_a_report() {
    let found = parse_dxdiag_cards(REPORTS[2]);
    assert_eq!(
        found,
        vec![
            card("Intel(R) UHD Graphics 630", "Intel", 128 * 1024 * 1024),
            card("AMD Radeon RX 580", "AMD", 8 * 1024 * 1024 * 1024),
        ]
    );
    let found = parse_dxdiag_cards(REPORTS[3]);
    assert_eq!(found, vec![card("Matrox G200", "Unknown", 0)]);
    assert!(parse_dxdiag_cards("").is_empty());
}

#[test]
fn cards_agree_with_the_line_by_line_reading() {
    for report in REPORTS {
        assert_eq!(parse_dxdiag_cards(report), expected_cards(report), "{:?}", report);
    }
}

#[test]
fn summary_of_a_report() {
    assert_eq!(dxdiag_summary(REPORTS[1]), "NVIDIA GeForce RTX 3060 (12129 MB)");
    assert_eq!(
        dxdiag_summary(REPORTS[2]),
        "Intel(R) UHD Graphics 630 (128 MB), AMD Radeon RX 580 (8 GB)"
    );
    assert_eq!(dxdiag_summary(REPORTS[9]), "a (1 MB), b (2 MB), c (Unknown)");
    assert_eq!(dxdiag_summary(""), "Unknown GPU");
    assert_eq!(dxdiag_summary("Dedicated Memory: 1 MB"), "Unknown GPU");
}

#[test]
fn summary_agrees_with_the_line_by_line_reading() {
    for report in REPORTS {
        assert_eq!(dxdiag_summary(report), expected_summary(report), "{:?}", report);
    }
}

#[test]
fn rows_of_nvidia_smi() {
    let output = "NVIDIA GeForce RTX 3060, 12288, 1024, 11264, 7, 45\r\nNVIDIA T4, 15360, 0, 15360, 0, 30\n";
    assert_eq!(
        parse_smi_rows(output),
        vec![
            vec!["NVIDIA GeForce RTX 3060", "12288", "1024", "11264", "7", "45"],
            vec!["NVIDIA T4", "15360", "0", "15360", "0", "30"],
        ]
    );
    assert_eq!(fields_of_row("a,b,c,d,e"), None);
    assert_eq!(
        fields_of_row(" a ,b,, d ,e,f,g,h"),
        Some(vec!["a".to_string(), "b".to_string(), String::new(), "d".to_string(), "e".to_string(), "f".to_string()])
    );
}

#[test]
fn rows_agree_with_the_line_by_line_reading() {
    let outputs = [
        "",
        "  \n ",
        "nvidia-smi : command not found",
        "a,b,c,d,e,f\nnot found",
        "a,b,c,d,e,f",
        "\n\na, b, c, d, e, f\n\nshort, row\n1,2,3,4,5,6,7\n\n",
        ",,,,,\n,,,,",
        "x,y,z,1,2,3\r\n端口, 监控 ,a,b,c,d\r\n",
    ];
    for output in outputs {
        assert_eq!(parse_smi_rows(output), expected_rows(output), "{:?}", output);
    }
}

#[test]
fn uptime_of_a_systeminfo_line() {
    let line = "System Up Time:            0 Days, 5 Hours, 30 Minutes, 15 Seconds";
    assert_eq!(parse_uptime(line), Some(5 * 3600 + 30 * 60 + 15));
    let line = "System Up Time: 12 Days, 0 Hours, 0 Minutes, 1 Seconds\r\n";
    assert_eq!(parse_uptime(line), Some(12 * 86400 + 1));
    assert_eq!(parse_uptime("System Up Time: 0 Days, 0 Hours, 0 Minutes, 0 Seconds"), None);
    assert_eq!(parse_uptime("3 Days"), None);
    assert_eq!(parse_uptime(""), None);
    assert_eq!(parse_uptime(": 3 Days"), Some(3 * 86400));
    assert_eq!(number_before("0 Days, 5 Hours", "Hours"), Some(5));
    assert_eq!(number_before("0 Days, 5 Hours", "Days"), Some(0));
    assert_eq!(number_before("Days", "Days"), None);
    assert_eq!(number_before("five Days", "Days"), None);
    assert_eq!(number_before("5 Hours", "Days"), None);
}

#[test]
fn uptime_agrees_with_the_piecewise_reading() {
    let outputs = [
        "",
        "no colon here 5 Days",
        "System Up Time: 0 Days, 5 Hours, 30 Minutes, 15 Seconds",
        "Up: 1 Days: 2 Hours: 3 Minutes: 4 Seconds",
        "a:b:c",
        "t: 7Days 8 Hours",
        "t: 1 Seconds 2 Seconds",
        "t: 213503982334602 Days, 1 Hours",
        "t: 18446744073709551615 Seconds, 1 Minutes",
        "t: Seconds 5 Minutes",
        "t:  9 Minutes\n",
        "系统运行时间: 3 Days, 4 Hours",
        "t: -1 Days, +2 Hours",
    ];
    for output in outputs {
        assert_eq!(parse_uptime(output), expected_uptime(output), "{:?}", output);
    }
}
