use crashwatch::inventory::{format_inventory, query_host_facts, HostFacts};

#[test]
fn inventory_renders_exactly_from_facts() {
    let facts = HostFacts {
        os_version: Some(String::from("Linux (Test 1.0)")),
        kernel_version: Some(String::from("6.1.0")),
        cpu_brands: vec![String::from("Test CPU 3000"), String::from("Test CPU 3000")],
        total_memory: 17179869184,
        used_memory: 4294967296,
    };
    let text = format_inventory(&facts, "  GPU 1: Test Adapter\n");
    let expected = "Operating System: Linux (Test 1.0) 6.1.0\n\
                    CPU Model: Test CPU 3000\n\
                    CPU Core Count: 2\n\
                    GPU Information:\n\
                    \x20 GPU 1: Test Adapter\n\
                    Total Memory: 16 GB\n\
                    Used Memory: 4 GB";
    assert_eq!(text, expected);
}

#[test]
fn missing_facts_degrade_to_placeholders() {
    let facts = HostFacts {
        os_version: None,
        kernel_version: None,
        cpu_brands: Vec::new(),
        total_memory: 0,
        used_memory: 0,
    };
    let text = format_inventory(&facts, "  No GPU information available\n");
    assert!(text.starts_with("Operating System: Unknown Unknown\n"));
    assert!(text.contains("CPU Model: Unknown\n"));
    assert!(text.contains("CPU Core Count: 0\n"));
    assert!(text.contains("Total Memory: 0 GB\n"));
    assert!(text.ends_with("Used Memory: 0 GB"));
}

#[test]
fn memory_rounds_down_to_whole_gb() {
    let facts = HostFacts {
        os_version: None,
        kernel_version: None,
        cpu_brands: Vec::new(),
        total_memory: 0x40000000 * 2 - 1,
        used_memory: 0x40000000,
    };
    let text = format_inventory(&facts, "");
    assert!(text.contains("Total Memory: 1 GB\n"));
    assert!(text.contains("Used Memory: 1 GB"));
}

#[test]
fn collecting_twice_yields_identical_cpu_and_os_facts() {
    let first = query_host_facts();
    let second = query_host_facts();
    assert_eq!(first.os_version, second.os_version);
    assert_eq!(first.kernel_version, second.kernel_version);
    assert_eq!(first.cpu_brands, second.cpu_brands);
    let gpu = "  No GPU information available\n";
    let a = format_inventory(&first, gpu);
    let b = format_inventory(&second, gpu);
    let head = |s: &str| {
        s.lines()
            .filter(|l| l.starts_with("Operating System:") || l.starts_with("CPU"))
            .collect::<Vec<_>>()
            .join("\n")
    };
    assert_eq!(head(&a), head(&b));
}
