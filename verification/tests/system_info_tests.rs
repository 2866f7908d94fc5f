use agent_network::system_info::SystemInfoCollector;

#[test]
fn cpu_model_is_read_from_the_first_model_line() {
    let info = "processor\t: 0\nvendor_id\t: GenuineIntel\nmodel name\t: Intel(R) Xeon(R) CPU @ 2.20GHz\nmodel name\t: other\n";
    assert_eq!(SystemInfoCollector::cpu_model_from_cpuinfo(info), "Intel(R) Xeon(R) CPU @ 2.20GHz");
}

#[test]
fn cpu_model_unknown_without_the_line_or_its_colon() {
    assert_eq!(SystemInfoCollector::cpu_model_from_cpuinfo("processor: 0\n"), "Unknown CPU");
    assert_eq!(SystemInfoCollector::cpu_model_from_cpuinfo("model name without colon\nmodel name: later\n"), "Unknown CPU");
    assert_eq!(SystemInfoCollector::cpu_model_from_cpuinfo(""), "Unknown CPU");
}

#[test]
fn cpu_model_stops_at_a_second_colon() {
    assert_eq!(SystemInfoCollector::cpu_model_from_cpuinfo("model name : A : B\n"), "A");
}

#[test]
fn gpus_are_parsed_from_csv() {
    let out = "NVIDIA A100, 40960\nTesla T4 , 15360\nsmall, 512\nbroken\nbad, x\n";
    let gpus = SystemInfoCollector::detect_gpus(Some(out));
    let got: Vec<(String, u32)> = gpus.iter().map(|g| (g.name.clone(), g.vram_gb)).collect();
    assert_eq!(got, vec![("NVIDIA A100".to_string(), 40), ("Tesla T4".to_string(), 15)]);
}

#[test]
fn no_gpus_without_the_command() {
    assert!(SystemInfoCollector::detect_gpus(None).is_empty());
    assert!(SystemInfoCollector::detect_gpus(Some("")).is_empty());
}

#[test]
fn cuda_version_from_header() {
    let out = "+----+\n| NVIDIA-SMI 535.104.05   Driver Version: 535.104.05   CUDA Version: 12.2     |\n";
    assert_eq!(SystemInfoCollector::cuda_version_from_smi(Some(out)), "12.2     |");
    assert_eq!(SystemInfoCollector::cuda_version_from_smi(Some("no cuda here\n")), "Not installed");
    assert_eq!(SystemInfoCollector::cuda_version_from_smi(None), "Not installed");
}

#[test]
fn software_info_reports_cuda() {
    assert_eq!(SystemInfoCollector::software_info(None).cuda_version, "Not installed");
    assert_eq!(SystemInfoCollector::software_info(Some("CUDA Version: 12.4\n")).cuda_version, "12.4");
}
