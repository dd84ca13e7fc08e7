use crashwatch::gpu::{extract_names, gpu_block, HostOs};

fn names_as_strings(names: Vec<Vec<char>>) -> Vec<String> {
    names.into_iter().map(|v| v.into_iter().collect()).collect()
}

#[test]
fn plain_output_keeps_nonblank_trimmed_lines() {
    let out = "  NVIDIA GeForce RTX 3060  \r\n\r\n   \r\nIntel UHD Graphics\r\n";
    let names = names_as_strings(extract_names(HostOs::Windows, true, out));
    assert_eq!(names, vec!["NVIDIA GeForce RTX 3060", "Intel UHD Graphics"]);
}

#[test]
fn keyed_output_takes_name_values_only() {
    let out = "\r\nName=AMD Radeon RX 6700\r\nCaption=ignored\r\nName=\r\nName=Intel Arc\r\n";
    let names = names_as_strings(extract_names(HostOs::Windows, false, out));
    assert_eq!(names, vec!["AMD Radeon RX 6700", "Intel Arc"]);
}

#[test]
fn profiler_output_takes_chipset_models() {
    let out = "Graphics/Displays:\n\n    Apple M1:\n\n      Chipset Model: Apple M1\n      Type: GPU\n";
    let names = names_as_strings(extract_names(HostOs::MacOs, true, out));
    assert_eq!(names, vec!["Apple M1"]);
}

#[test]
fn pci_output_takes_display_controllers() {
    let out = "00:01.0 Host bridge [0600]: Intel\n\
               00:02.0 VGA compatible controller [0300]: Intel Iris Xe\n\
               01:00.0 3D controller [0302]: NVIDIA GA107M\n\
               02:00.0 Ethernet controller: Realtek\n";
    let names = names_as_strings(extract_names(HostOs::Linux, true, out));
    assert_eq!(
        names,
        vec![
            "00:02.0 VGA compatible controller [0300]: Intel Iris Xe",
            "01:00.0 3D controller [0302]: NVIDIA GA107M",
        ]
    );
}

#[test]
fn block_numbers_devices_from_one() {
    let primary = String::from("First GPU\nSecond GPU\n");
    let block = gpu_block(HostOs::Windows, Some(&primary), None);
    assert_eq!(block, "  GPU 1: First GPU\n  GPU 2: Second GPU\n");
}

#[test]
fn block_falls_back_when_primary_names_none() {
    let primary = String::from("   \n\n");
    let fallback = String::from("Name=Backup Adapter\n");
    let block = gpu_block(HostOs::Windows, Some(&primary), Some(&fallback));
    assert_eq!(block, "  GPU 1: Backup Adapter\n");
}

#[test]
fn block_reports_no_devices_when_queries_ran_empty() {
    let primary = String::from("\n");
    let block = gpu_block(HostOs::Linux, Some(&primary), None);
    assert_eq!(block, "  No GPU devices detected\n");
}

#[test]
fn block_reports_no_information_when_no_query_ran() {
    let block = gpu_block(HostOs::MacOs, None, None);
    assert_eq!(block, "  No GPU information available\n");
}
