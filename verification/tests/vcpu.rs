use machine::error::MachineError;
use machine::pipeline::Action;
use machine::vcpu::{init_vcpu, LogicalCPU};

#[test]
fn four_vcpus_are_created_in_index_order() {
    let fds = vec![30, 31, 32, 33];
    let (cpus, pipeline) = init_vcpu(4, &fds, true);
    assert_eq!(
        cpus,
        vec![
            LogicalCPU { id: 0, fd: 30, nr_cpus: 4 },
            LogicalCPU { id: 1, fd: 31, nr_cpus: 4 },
            LogicalCPU { id: 2, fd: 32, nr_cpus: 4 },
            LogicalCPU { id: 3, fd: 33, nr_cpus: 4 },
        ]
    );
    assert_eq!(
        pipeline.steps(),
        &vec![
            Action::RegisterVcpu { index: 0 },
            Action::RegisterVcpu { index: 1 },
            Action::RegisterVcpu { index: 2 },
            Action::RegisterVcpu { index: 3 },
            Action::RealizeVcpu { index: 0 },
            Action::RealizeVcpu { index: 1 },
            Action::RealizeVcpu { index: 2 },
            Action::RealizeVcpu { index: 3 },
        ]
    );
}

#[test]
fn every_vcpu_is_registered_once_with_or_without_a_boot_configuration() {
    for boot in [false, true] {
        for n in [0u8, 1, 4, 255] {
            let fds: Vec<i32> = (0..n as i32).map(|i| 100 + i).collect();
            let (cpus, pipeline) = init_vcpu(n, &fds, boot);
            assert_eq!(cpus.len(), n as usize);
            for (i, cpu) in cpus.iter().enumerate() {
                assert_eq!(cpu.id as usize, i);
                assert_eq!(cpu.fd, 100 + i as i32);
            }
            for index in 0..n {
                let count = pipeline
                    .steps()
                    .iter()
                    .filter(|a| **a == Action::RegisterVcpu { index })
                    .count();
                assert_eq!(count, 1);
            }
            let expected = if boot { 2 * n as usize } else { n as usize };
            assert_eq!(pipeline.steps().len(), expected);
        }
    }
}

#[test]
fn without_a_boot_configuration_no_register_is_touched() {
    let fds = vec![7, 8];
    let (_, mut pipeline) = init_vcpu(2, &fds, false);
    let mut issued = Vec::new();
    while let Some(action) = pipeline.pending() {
        issued.push(action);
        pipeline.record(true);
    }
    assert_eq!(
        issued,
        vec![Action::RegisterVcpu { index: 0 }, Action::RegisterVcpu { index: 1 }]
    );
    assert_eq!(pipeline.result(), Some(Ok(())));
}

#[test]
fn spare_descriptors_are_ignored() {
    let fds = vec![5, 6, 7];
    let (cpus, _) = init_vcpu(2, &fds, false);
    assert_eq!(cpus.len(), 2);
    assert_eq!(cpus[1], LogicalCPU { id: 1, fd: 6, nr_cpus: 2 });
}

#[test]
fn the_first_vcpu_that_cannot_be_initialized_is_reported() {
    let fds = vec![30, 31, 32, 33];
    let (_, mut pipeline) = init_vcpu(4, &fds, true);
    let mut issued = Vec::new();
    while let Some(action) = pipeline.pending() {
        issued.push(action);
        pipeline.record(action != Action::RealizeVcpu { index: 1 });
    }
    assert_eq!(pipeline.result(), Some(Err(MachineError::RealizeVcpuErr(1))));
    // All four were registered, vCPU 0 stays initialized, 2 and 3 were not reached.
    assert_eq!(issued.len(), 6);
    assert_eq!(pipeline.completed(), 5);
    assert!(!issued.contains(&Action::RealizeVcpu { index: 2 }));
}
