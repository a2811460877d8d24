use sunlight_vm::devices::{
    Cpu, Device, DiskController, DiskDrive, DiskInterface, GraphicsAdapter, MachineType, Memory,
    Network, NetworkAdapter,
};
use sunlight_vm::errors::{
    VMCreateError, VMDbusConnectionError, VMQemuProcessStartError, VMStartError, VMState,
};
use sunlight_vm::machine::{is_valid_name, VirtualMachine};

fn s(x: &str) -> String {
    String::from(x)
}

#[test]
fn names_with_a_space_are_refused() {
    for name in ["a b", " lead", "trail ", "two  spaces", " "] {
        assert!(matches!(VirtualMachine::new(name), Err(VMCreateError::InvalidName)));
    }
}

#[test]
fn names_with_other_white_space_are_refused() {
    for name in ["tab\there", "new\nline", "nbsp\u{a0}x", "ideo\u{3000}x"] {
        assert!(matches!(VirtualMachine::new(name), Err(VMCreateError::InvalidName)));
    }
    assert!(!is_valid_name("a\rb"));
}

#[test]
fn names_without_white_space_are_accepted() {
    for name in ["test", "vm-01", "", "ünïcode_名前"] {
        assert!(VirtualMachine::new(name).is_ok());
        assert!(is_valid_name(name));
    }
}

#[test]
fn rename_keeps_the_name_rule() {
    let mut vm = VirtualMachine::new("old").unwrap();
    vm.set_machine_type(MachineType::Pc { acpi: true, usb: false });
    assert!(matches!(vm.set_name("bad name"), Err(VMCreateError::InvalidName)));
    assert_eq!(vm.to_arguments().unwrap()[2], "-name old,process=sunlight_old");
    assert!(vm.set_name("new").is_ok());
    assert_eq!(vm.to_arguments().unwrap()[2], "-name new,process=sunlight_new");
}

#[test]
fn compiling_without_chipset_fails() {
    let mut vm = VirtualMachine::new("vm").unwrap();
    assert!(matches!(vm.to_arguments(), Err(VMQemuProcessStartError::NoMachineType)));
    vm.add_device(Device::Memory(Memory { size: s("1G"), prealloc: false }));
    vm.add_drive(Device::Drive(DiskDrive::CdDrive { interface: DiskInterface::Ide, id: s("cd") }));
    assert!(matches!(vm.to_arguments(), Err(VMQemuProcessStartError::NoMachineType)));
    assert!(matches!(vm.start(), Err(VMQemuProcessStartError::ErrorBuildingCommandLine)));
}

#[test]
fn chipset_only_gives_baseline_arguments() {
    let mut vm = VirtualMachine::new("bare").unwrap();
    vm.set_machine_type(MachineType::Pc { acpi: true, usb: true });
    assert_eq!(
        vm.to_arguments().unwrap(),
        vec![
            s("-nodefaults"),
            s("-accel kvm"),
            s("-name bare,process=sunlight_bare"),
            s("-machine pc,acpi=on,usb=on"),
        ]
    );
}

#[test]
fn later_chipset_replaces_earlier() {
    let mut vm = VirtualMachine::new("vm").unwrap();
    vm.set_machine_type(MachineType::Pc { acpi: true, usb: true });
    vm.set_machine_type(MachineType::Q35 { acpi: false, usb: false, hmat: true });
    assert_eq!(
        vm.to_arguments().unwrap()[3],
        "-machine q35,acpi=off,usb=off,hmat=on -device ioh3420,id=vm.pcie_root,slot=0,bus=pcie.0"
    );
}

#[test]
fn devices_keep_attachment_order() {
    let mut vm = VirtualMachine::new("order").unwrap();
    vm.add_drive(Device::Drive(DiskDrive::CdDrive { interface: DiskInterface::Scsi, id: s("cd") }));
    vm.set_machine_type(MachineType::Pc { acpi: false, usb: false });
    for i in 0..5 {
        vm.add_device(Device::Network(Network::User { id: format!("n{}", i) }));
    }
    let args = vm.to_arguments().unwrap();
    assert_eq!(args.len(), 10);
    assert_eq!(args[3], "-machine pc,acpi=off,usb=off");
    for i in 0..5 {
        assert_eq!(args[4 + i], format!("-netdev user,id=vm.n{}", i));
    }
    assert_eq!(
        args[9],
        "-drive if=none,media=cdrom,aio=io_uring,id=cd -device scsi-cd,drive=cd,id=cd.drive"
    );
}

#[test]
fn failed_check_leaves_placeholder() {
    let mut vm = VirtualMachine::new("gpu").unwrap();
    vm.set_machine_type(MachineType::Q35 { acpi: true, usb: true, hmat: false });
    vm.set_uuid("1111");
    vm.add_device(Device::Graphics(GraphicsAdapter::VgpuVga {
        uuid: s("2222"),
        use_ramfb: false,
        pci_vendor_id: None,
        pci_device_id: None,
        pci_sub_vendor_id: None,
        pci_sub_device_id: None,
    }));
    vm.add_device(Device::Cpu(Cpu { model: s(""), features: vec![], core_count: 1 }));
    let args = vm.to_arguments().unwrap();
    assert_eq!(args[4], "invalid-device");
    assert_eq!(args[5], "invalid-device");
}

#[test]
fn matching_vgpu_renders() {
    let mut vm = VirtualMachine::new("gpu").unwrap();
    vm.set_machine_type(MachineType::Q35 { acpi: true, usb: true, hmat: false });
    vm.set_uuid("2222");
    vm.add_device(Device::Graphics(GraphicsAdapter::VgpuVga {
        uuid: s("2222"),
        use_ramfb: false,
        pci_vendor_id: None,
        pci_device_id: None,
        pci_sub_vendor_id: None,
        pci_sub_device_id: None,
    }));
    assert_eq!(
        vm.to_arguments().unwrap()[4],
        "-device vfio-pci-nohotplug,sysfsdev=/sys/bus/mdev/devices/2222,display=on,ramfb=off,id=vm.vgpu,bus=vm.pcie_root,addr=0x0"
    );
}

#[test]
fn full_machine_compiles() {
    let mut vm = VirtualMachine::new("test").unwrap();
    vm.set_machine_type(MachineType::Q35 { acpi: true, usb: true, hmat: false });
    vm.add_device(Device::Cpu(Cpu { model: s("host"), features: vec![], core_count: 2 }));
    vm.add_device(Device::Memory(Memory { size: s("4G"), prealloc: true }));
    vm.add_device(Device::Graphics(GraphicsAdapter::StdVga { ram_size_mb: 8 }));
    vm.add_device(Device::Controller(DiskController::VirtioScsi { id: s("scsic") }));
    vm.add_device(Device::Network(Network::User { id: s("usernet") }));
    vm.add_device(Device::NetworkAdapter(NetworkAdapter::Virtio {
        id: s("net0"),
        netdev: s("usernet"),
        mac: None,
    }));
    vm.add_drive(Device::Drive(DiskDrive::CdDrive { interface: DiskInterface::Scsi, id: s("cd") }));
    vm.add_drive(Device::Drive(DiskDrive::HdDrive {
        id: s("sdda"),
        interface: DiskInterface::Scsi,
        image_path: s("/home/user/test.qcow2"),
        readonly: false,
        format: s("qcow2"),
        ssd: true,
        cache: Some(s("writethrough")),
        aio: Some(s("io_uring")),
    }));
    let expected = vec![
        s("-nodefaults"),
        s("-accel kvm"),
        s("-name test,process=sunlight_test"),
        s("-machine q35,acpi=on,usb=on,hmat=off -device ioh3420,id=vm.pcie_root,slot=0,bus=pcie.0"),
        s("-cpu host -smp cores=2"),
        s("-m 4G -mem-prealloc"),
        s("-device VGA,vgamem_mb=8,id=vm.vga"),
        s("-object iothread,id=vm.scsic.block_thread -device virtio-scsi-pci,num_queues=6,iothread=vm.scsic.block_thread,id=vm.scsic"),
        s("-netdev user,id=vm.usernet"),
        s("-device virtio-net-pci,id=vm.net0,netdev=vm.usernet"),
        s("-drive if=none,media=cdrom,aio=io_uring,id=cd -device scsi-cd,drive=cd,id=cd.drive"),
        s("-drive if=none,file=/home/user/test.qcow2,format=qcow2,id=vm.sdda.drive,readonly=off,cache=writethrough,aio=io_uring -device scsi-hd,id=vm.sdda,drive=vm.sdda.drive,rotation_rate=1"),
    ];
    assert_eq!(vm.to_arguments().unwrap(), expected);
    assert_eq!(vm.start().unwrap(), expected);
}

#[test]
fn error_messages() {
    assert_eq!(VMCreateError::InvalidName.message(), "invalid name characters present");
    assert_eq!(VMQemuProcessStartError::NoMachineType.message(), "no QEMU machine type specified");
    assert_eq!(
        VMQemuProcessStartError::ErrorBuildingCommandLine.message(),
        "error building QEMU command line from devices"
    );
    let io = std::io::Error::new(std::io::ErrorKind::Other, "socket closed");
    assert_eq!(VMQemuProcessStartError::IoError(io).message(), "socket closed");
    let io = std::io::Error::new(std::io::ErrorKind::Other, "no bus");
    assert_eq!(VMDbusConnectionError::IoError(io).message(), "no bus");
    let e = VMStartError::QemuProcessStartFailure(VMQemuProcessStartError::NoMachineType);
    assert_eq!(e.message(), "failure starting QEMU process");
    let io = std::io::Error::new(std::io::ErrorKind::Other, "x");
    assert_eq!(
        VMStartError::DbusConnectionFailure(VMDbusConnectionError::IoError(io)).message(),
        "failure initiating p2p D-Bus connection"
    );
}

#[test]
fn vm_state_is_plain_value() {
    let a = VMState::Starting;
    let b = a;
    assert_eq!(a, b);
    assert_ne!(VMState::Stopped, VMState::Started);
}
