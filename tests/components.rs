use easy_stress::components::{
    megabytes, position_of_name, get_stressed_components, get_stressors, get_termination_options, platform_choice, unit_count_options,
    CPUInformation, Component, GPUInformation, GreetingValues, PlatformChoice, TerminationMethod,
};
use easy_stress::stressors::Stressor;

#[test]
fn greeting_defaults_and_os_line() {
    let cpu = CPUInformation::new("Ryzen".to_string(), 16, Some(8));
    let g = GreetingValues::new(None, None, None, 1024, cpu, vec![]);
    assert_eq!(g.host_name, "User");
    assert_eq!(g.os, "N/A");
    assert_eq!(g.memory, 1024);
    assert_eq!(g.cpu_information.physical_cores, 8);
    let cpu = CPUInformation::new("Ryzen".to_string(), 16, None);
    assert_eq!(cpu.physical_cores, 16);
    assert_eq!(cpu.logical_cores, 16);
    let gpu = GPUInformation::new(Some("Radeon".to_string()), Some(1 << 30)).unwrap();
    let g = GreetingValues::new(
        Some("box".to_string()),
        Some("Linux 22.04 Ubuntu".to_string()),
        Some("6.1.0".to_string()),
        0,
        cpu,
        vec![gpu],
    );
    assert_eq!(g.host_name, "box");
    assert_eq!(g.os, "Linux 22.04 Ubuntu v6.1.0");
    assert_eq!(g.gpu_information.len(), 1);
    assert_eq!(g.gpu_information[0].name, "Radeon");
    assert_eq!(g.gpu_information[0].mem, Some(1 << 30));
    assert_eq!(get_stressed_components(&g), vec![Component::Cpu, Component::Gpu]);
    let g = GreetingValues::new(None, Some("macOS".to_string()), Some("23".to_string()), 0,
        CPUInformation::new("M2".to_string(), 8, None), vec![]);
    assert_eq!(g.os, "macOS v23");
    let g = GreetingValues::new(None, None, Some("23".to_string()), 0,
        CPUInformation::new("M2".to_string(), 8, None), vec![]);
    assert_eq!(g.os, "N/A v23");
}

#[test]
fn unnamed_gpu_is_left_out() {
    assert!(GPUInformation::new(None, Some(5)).is_none());
    let g = GPUInformation::new(Some("iGPU".to_string()), None).unwrap();
    assert_eq!(g.mem, None);
}

#[test]
fn stressor_menus() {
    let cpu_x86 = get_stressors(Component::Cpu, true);
    assert_eq!(cpu_x86, vec![
        Stressor::Fibonacci,
        Stressor::FloatAddition,
        Stressor::FloatMultiplication,
        Stressor::MatrixMultiplication,
        Stressor::SquareRoot,
        Stressor::Primes,
        Stressor::InverseSquareRoot,
        Stressor::FloatDivision,
    ]);
    let cpu_other = get_stressors(Component::Cpu, false);
    assert_eq!(cpu_other.len(), 7);
    assert!(!cpu_other.contains(&Stressor::InverseSquareRoot));
    assert_eq!(get_stressors(Component::Gpu, true),
        vec![Stressor::SquareRoot, Stressor::MatrixMultiplication, Stressor::FloatAddition]);
    assert_eq!(Component::Cpu.label(), "CPU");
    assert_eq!(Component::Gpu.label(), "GPU");
}

#[test]
fn termination_menus() {
    assert_eq!(get_termination_options(Component::Cpu, true),
        vec![TerminationMethod::Time, TerminationMethod::Temperature]);
    assert_eq!(get_termination_options(Component::Cpu, false), vec![TerminationMethod::Time]);
    assert_eq!(get_termination_options(Component::Gpu, true), vec![TerminationMethod::Time]);
    assert_eq!(TerminationMethod::Time.label(), "Time");
    assert_eq!(TerminationMethod::Temperature.label(), "Temperature");
}

#[test]
fn unit_counts_and_platforms() {
    assert_eq!(unit_count_options(4), vec![1, 2, 3, 4]);
    assert!(unit_count_options(0).is_empty());
    assert_eq!(platform_choice(0), PlatformChoice::Unavailable);
    assert_eq!(platform_choice(1), PlatformChoice::Only);
    assert_eq!(platform_choice(3), PlatformChoice::Ask);
}

#[test]
fn stressor_names() {
    assert_eq!(Stressor::Fibonacci.name(), "Fibonacci");
    assert_eq!(Stressor::Primes.name(), "Primes");
    assert_eq!(Stressor::FloatAddition.name(), "Float Addition");
    assert_eq!(Stressor::FloatMultiplication.name(), "Float Multiplication");
    assert_eq!(Stressor::FloatDivision.name(), "Float Division");
    assert_eq!(Stressor::SquareRoot.name(), "Square Root");
    assert_eq!(Stressor::InverseSquareRoot.name(), "Inverse Square Root");
}

#[test]
fn megabytes_and_names() {
    assert_eq!(megabytes(0), 0);
    assert_eq!(megabytes(1_048_575), 0);
    assert_eq!(megabytes(3 * 1_048_576 + 5), 3);
    let names = vec!["A".to_string(), "B".to_string(), "B".to_string()];
    assert_eq!(position_of_name(&names, &"B".to_string()), Some(1));
    assert_eq!(position_of_name(&names, &"C".to_string()), None);
    assert_eq!(position_of_name(&vec![], &"A".to_string()), None);
}
