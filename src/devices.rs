//! The devices a virtual machine can be given, and how each one renders as
//! QEMU arguments.

use vstd::prelude::*;
use crate::machine::{VirtualMachine, VmModel};
use crate::text::{bool_to_qemu, decimal, int_to_text, join, join_with, on_off};

verus! {

/// Something that renders as a fragment of the QEMU command line and can check
/// itself against the machine it is attached to.
pub trait QemuOption {
    /// The fragment this value renders as.
    spec fn options_text(&self) -> Seq<char>;

    /// Whether this value's configuration fits the machine.
    spec fn valid_in(&self, vm: VmModel) -> bool;

    /// Renders the QEMU arguments of this value.
    fn as_options(&self) -> (r: String)
        ensures
            r@ == self.options_text(),
    ;

    /// Checks that the rendered arguments will work on this machine.
    fn validate(&self, machine: &VirtualMachine) -> (r: bool)
        ensures
            r == self.valid_in(machine@),
    ;
}

/// The emulated chipset.
#[derive(Clone, Copy, Debug, PartialEq, Eq)]
pub enum MachineType {
    /// The i440fx chipset.
    Pc { acpi: bool, usb: bool },
    /// The Q35 chipset, with a PCI Express root; needed for vGPU.
    Q35 { acpi: bool, usb: bool, hmat: bool },
}

impl QemuOption for MachineType {
    open spec fn options_text(&self) -> Seq<char> {
        match *self {
            MachineType::Pc { acpi, usb } => "-machine pc,acpi="@ + on_off(acpi) + ",usb="@ + on_off(
                usb,
            ),
            MachineType::Q35 { acpi, usb, hmat } => "-machine q35,acpi="@ + on_off(acpi) + ",usb="@
                + on_off(usb) + ",hmat="@ + on_off(hmat)
                + " -device ioh3420,id=vm.pcie_root,slot=0,bus=pcie.0"@,
        }
    }

    open spec fn valid_in(&self, _vm: VmModel) -> bool {
        true
    }

    fn as_options(&self) -> (r: String) {
        match *self {
            MachineType::Pc { acpi, usb } => {
                let mut s = String::from_str("-machine pc,acpi=");
                s.append(bool_to_qemu(acpi).as_str());
                s.append(",usb=");
                s.append(bool_to_qemu(usb).as_str());
                s
            },
            MachineType::Q35 { acpi, usb, hmat } => {
                let mut s = String::from_str("-machine q35,acpi=");
                s.append(bool_to_qemu(acpi).as_str());
                s.append(",usb=");
                s.append(bool_to_qemu(usb).as_str());
                s.append(",hmat=");
                s.append(bool_to_qemu(hmat).as_str());
                s.append(" -device ioh3420,id=vm.pcie_root,slot=0,bus=pcie.0");
                s
            },
        }
    }

    fn validate(&self, _machine: &VirtualMachine) -> (r: bool) {
        true
    }
}

/// A processor model with its extra features and its number of cores.
pub struct Cpu {
    pub model: String,
    pub features: Vec<String>,
    pub core_count: i8,
}

/// The text of each of a list of strings.
pub open spec fn views(v: Seq<String>) -> Seq<Seq<char>> {
    v.map_values(|s: String| s@)
}

impl QemuOption for Cpu {
    open spec fn options_text(&self) -> Seq<char> {
        "-cpu "@ + self.model@ + (if self.features@.len() == 0 {
            Seq::empty()
        } else {
            ","@ + join(views(self.features@), ","@)
        }) + " -smp cores="@ + decimal(self.core_count as int)
    }

    /// An empty model is refused; an empty feature list is fine.
    open spec fn valid_in(&self, _vm: VmModel) -> bool {
        self.model@.len() > 0
    }

    fn as_options(&self) -> (r: String) {
        let mut s = String::from_str("-cpu ");
        s.append(self.model.as_str());
        if self.features.len() > 0 {
            s.append(",");
            s.append(join_with(&self.features, ",").as_str());
        }
        s.append(" -smp cores=");
        s.append(int_to_text(self.core_count as i64).as_str());
        proof {
            if self.features@.len() == 0 {
                assert(s@ =~= self.options_text());
            }
        }
        s
    }

    fn validate(&self, _machine: &VirtualMachine) -> (r: bool) {
        self.model.as_str().unicode_len() > 0
    }
}

/// The guest's memory: a size as QEMU reads it, and whether to preallocate.
pub struct Memory {
    pub size: String,
    pub prealloc: bool,
}

impl QemuOption for Memory {
    open spec fn options_text(&self) -> Seq<char> {
        "-m "@ + self.size@ + (if self.prealloc {
            " -mem-prealloc"@
        } else {
            Seq::empty()
        })
    }

    open spec fn valid_in(&self, _vm: VmModel) -> bool {
        true
    }

    fn as_options(&self) -> (r: String) {
        let mut s = String::from_str("-m ");
        s.append(self.size.as_str());
        if self.prealloc {
            s.append(" -mem-prealloc");
        } else {
            assert(s@ =~= self.options_text());
        }
        s
    }

    fn validate(&self, _machine: &VirtualMachine) -> (r: bool) {
        true
    }
}

/// How the drives' data survives the machine.
#[derive(Clone, Copy, Debug, PartialEq, Eq)]
pub enum Snapshot {
    NoSnapshots,
    /// Writes go to a temporary file, dropped when the machine stops.
    HdSnapshot,
}

/// `key` followed by the value, when there is one; nothing otherwise.
pub open spec fn optional(key: Seq<char>, v: Option<String>) -> Seq<char> {
    match v {
        Some(x) => key + x@,
        None => Seq::empty(),
    }
}

fn append_optional(out: &mut String, key: &str, v: &Option<String>)
    ensures
        final(out)@ == old(out)@ + optional(key@, *v),
{
    match v {
        Some(x) => {
            out.append(key);
            out.append(x.as_str());
        },
        None => {
            assert(old(out)@ =~= old(out)@ + optional(key@, *v));
        },
    }
}

/// The bus a drive sits on.
#[derive(Clone, Copy, Debug, PartialEq, Eq)]
pub enum DiskInterface {
    /// IDE, or SATA on the Q35 chipset.
    Ide,
    /// SCSI, VirtIO SCSI included.
    Scsi,
}

/// A storage controller.
pub enum DiskController {
    VirtioScsi { id: String },
}

impl QemuOption for DiskController {
    open spec fn options_text(&self) -> Seq<char> {
        match self {
            DiskController::VirtioScsi { id } => "-object iothread,id=vm."@ + id@
                + ".block_thread -device virtio-scsi-pci,num_queues=6,iothread=vm."@ + id@
                + ".block_thread,id=vm."@ + id@,
        }
    }

    open spec fn valid_in(&self, _vm: VmModel) -> bool {
        true
    }

    fn as_options(&self) -> (r: String) {
        match self {
            DiskController::VirtioScsi { id } => {
                let mut s = String::from_str("-object iothread,id=vm.");
                s.append(id.as_str());
                s.append(".block_thread -device virtio-scsi-pci,num_queues=6,iothread=vm.");
                s.append(id.as_str());
                s.append(".block_thread,id=vm.");
                s.append(id.as_str());
                s
            },
        }
    }

    fn validate(&self, _machine: &VirtualMachine) -> (r: bool) {
        true
    }
}

/// A drive: optical, hard disk, or raw flash.
pub enum DiskDrive {
    CdDrive { interface: DiskInterface, id: String },
    HdDrive {
        id: String,
        interface: DiskInterface,
        image_path: String,
        readonly: bool,
        format: String,
        /// Solid-state media: the guest is told the disk does not rotate.
        ssd: bool,
        /// Cache mode; left out of the arguments when absent.
        cache: Option<String>,
        /// Asynchronous I/O backend; left out of the arguments when absent.
        aio: Option<String>,
    },
    /// A raw flash drive, with no choice of interface.
    Pflash { id: String, image_path: String, readonly: bool, format: String },
}

/// The QEMU device type of an optical drive on the interface.
pub open spec fn cd_device(i: DiskInterface) -> Seq<char> {
    match i {
        DiskInterface::Ide => "ide-cd"@,
        DiskInterface::Scsi => "scsi-cd"@,
    }
}

/// The QEMU device type of a hard disk on the interface.
pub open spec fn hd_device(i: DiskInterface) -> Seq<char> {
    match i {
        DiskInterface::Ide => "ide-hd"@,
        DiskInterface::Scsi => "scsi-hd"@,
    }
}

/// The backing-store clause of a hard disk.
pub open spec fn hd_backing(
    id: Seq<char>,
    image_path: Seq<char>,
    readonly: bool,
    format: Seq<char>,
    cache: Option<String>,
    aio: Option<String>,
) -> Seq<char> {
    "-drive if=none,file="@ + image_path + ",format="@ + format + ",id=vm."@ + id
        + ".drive,readonly="@ + on_off(readonly) + optional(",cache="@, cache) + optional(
        ",aio="@,
        aio,
    )
}

/// The device clause of a hard disk, after its device type.
pub open spec fn hd_attach(id: Seq<char>, ssd: bool) -> Seq<char> {
    "id=vm."@ + id + ",drive=vm."@ + id + ".drive"@ + (if ssd {
        ",rotation_rate=1"@
    } else {
        Seq::empty()
    })
}

impl QemuOption for DiskDrive {
    open spec fn options_text(&self) -> Seq<char> {
        match self {
            DiskDrive::CdDrive { interface, id } => "-drive if=none,media=cdrom,aio=io_uring,id="@
                + id@ + " -device "@ + cd_device(*interface) + ",drive="@ + id@ + ",id="@ + id@
                + ".drive"@,
            DiskDrive::HdDrive { id, interface, image_path, readonly, format, ssd, cache, aio } =>
                hd_backing(id@, image_path@, *readonly, format@, *cache, *aio) + " -device "@
                + hd_device(*interface) + ","@ + hd_attach(id@, *ssd),
            DiskDrive::Pflash { id, image_path, readonly, format } => "-drive if=pflash,file="@
                + image_path@ + ",format="@ + format@ + ",id=vm."@ + id@ + ".drive,readonly="@
                + on_off(*readonly),
        }
    }

    open spec fn valid_in(&self, _vm: VmModel) -> bool {
        true
    }

    fn as_options(&self) -> (r: String) {
        match self {
            DiskDrive::CdDrive { interface, id } => {
                let mut s = String::from_str("-drive if=none,media=cdrom,aio=io_uring,id=");
                s.append(id.as_str());
                match interface {
                    DiskInterface::Ide => s.append(" -device ide-cd"),
                    DiskInterface::Scsi => s.append(" -device scsi-cd"),
                }
                proof {
                    reveal_strlit(" -device ide-cd");
                    reveal_strlit(" -device scsi-cd");
                    reveal_strlit(" -device ");
                    reveal_strlit("ide-cd");
                    reveal_strlit("scsi-cd");
                    assert(" -device ide-cd"@ =~= " -device "@ + "ide-cd"@);
                    assert(" -device scsi-cd"@ =~= " -device "@ + "scsi-cd"@);
                }
                s.append(",drive=");
                s.append(id.as_str());
                s.append(",id=");
                s.append(id.as_str());
                s.append(".drive");
                assert(s@ =~= self.options_text());
                s
            },
            DiskDrive::HdDrive { id, interface, image_path, readonly, format, ssd, cache, aio } => {
                let mut s = String::from_str("-drive if=none,file=");
                s.append(image_path.as_str());
                s.append(",format=");
                s.append(format.as_str());
                s.append(",id=vm.");
                s.append(id.as_str());
                s.append(".drive,readonly=");
                s.append(bool_to_qemu(*readonly).as_str());
                append_optional(&mut s, ",cache=", cache);
                append_optional(&mut s, ",aio=", aio);
                assert(s@ =~= hd_backing(id@, image_path@, *readonly, format@, *cache, *aio));
                s.append(" -device ");
                match interface {
                    DiskInterface::Ide => s.append("ide-hd"),
                    DiskInterface::Scsi => s.append("scsi-hd"),
                }
                s.append(",id=vm.");
                s.append(id.as_str());
                s.append(",drive=vm.");
                s.append(id.as_str());
                s.append(".drive");
                if *ssd {
                    s.append(",rotation_rate=1");
                }
                proof {
                    reveal_strlit(",id=vm.");
                    reveal_strlit(",");
                    reveal_strlit("id=vm.");
                    assert(",id=vm."@ =~= ","@ + "id=vm."@);
                }
                assert(s@ =~= self.options_text());
                s
            },
            DiskDrive::Pflash { id, image_path, readonly, format } => {
                let mut s = String::from_str("-drive if=pflash,file=");
                s.append(image_path.as_str());
                s.append(",format=");
                s.append(format.as_str());
                s.append(",id=vm.");
                s.append(id.as_str());
                s.append(".drive,readonly=");
                s.append(bool_to_qemu(*readonly).as_str());
                s
            },
        }
    }

    fn validate(&self, _machine: &VirtualMachine) -> (r: bool) {
        true
    }
}

/// A display adapter.
pub enum GraphicsAdapter {
    /// Standard VGA.
    StdVga { ram_size_mb: i16 },
    /// Cirrus Logic GD5446.
    CirrusVga { ram_size_mb: i16 },
    /// Red Hat QXL.
    QxlVga {},
    /// A mediated-device (mdev) vGPU, such as Intel GVT-g or NVIDIA vGPU.
    VgpuVga {
        /// The mdev's identity; it must be the machine's own.
        uuid: String,
        /// Adds a ramfb framebuffer for video before the guest driver loads.
        use_ramfb: bool,
        /// PCI identity overrides, to get past a driver's list of allowed
        /// devices; given when the vendor override is.
        pci_vendor_id: Option<String>,
        pci_device_id: Option<String>,
        pci_sub_vendor_id: Option<String>,
        pci_sub_device_id: Option<String>,
    },
}

/// The start of a vGPU's device clause.
pub open spec fn vgpu_base(uuid: Seq<char>, use_ramfb: bool) -> Seq<char> {
    "-device vfio-pci-nohotplug,sysfsdev=/sys/bus/mdev/devices/"@ + uuid + ",display=on,ramfb="@
        + on_off(use_ramfb) + ",id=vm.vgpu,bus=vm.pcie_root,addr=0x0"@
}

/// The PCI identity overrides of a vGPU, keyed off the vendor override.
pub open spec fn vgpu_ids(
    vendor: Option<String>,
    device: Option<String>,
    sub_vendor: Option<String>,
    sub_device: Option<String>,
) -> Seq<char> {
    if vendor is Some {
        optional(",x-pci-vendor-id="@, vendor) + optional(",x-pci-device-id="@, device) + optional(
            ",x-pci-sub-vendor-id="@,
            sub_vendor,
        ) + optional(",x-pci-sub-device-id="@, sub_device)
    } else {
        Seq::empty()
    }
}

impl GraphicsAdapter {
    /// Whether the machine's chipset can carry this adapter: a vGPU needs Q35.
    pub open spec fn chipset_fits(&self, vm: VmModel) -> bool {
        self is VgpuVga ==> vm.machine matches Some(MachineType::Q35 { .. })
    }

    /// Checks that the machine's chipset can carry this adapter. This check is
    /// kept apart from `validate`, which looks at the identity binding alone.
    pub fn chipset_compatible(&self, machine: &VirtualMachine) -> (r: bool)
        ensures
            r == self.chipset_fits(machine@),
    {
        match self {
            GraphicsAdapter::VgpuVga { .. } => match machine.machine_type() {
                Some(MachineType::Q35 { .. }) => true,
                _ => false,
            },
            _ => true,
        }
    }
}

impl QemuOption for GraphicsAdapter {
    open spec fn options_text(&self) -> Seq<char> {
        match self {
            GraphicsAdapter::StdVga { ram_size_mb } => "-device VGA,vgamem_mb="@ + decimal(
                *ram_size_mb as int,
            ) + ",id=vm.vga"@,
            GraphicsAdapter::CirrusVga { ram_size_mb } => "-device cirrus-vga,vgamem_mb="@
                + decimal(*ram_size_mb as int) + ",id=vm.vga"@,
            GraphicsAdapter::QxlVga {  } => "-device qxl-vga,id=vm.vga"@,
            GraphicsAdapter::VgpuVga {
                uuid,
                use_ramfb,
                pci_vendor_id,
                pci_device_id,
                pci_sub_vendor_id,
                pci_sub_device_id,
            } => vgpu_base(uuid@, *use_ramfb) + vgpu_ids(
                *pci_vendor_id,
                *pci_device_id,
                *pci_sub_vendor_id,
                *pci_sub_device_id,
            ),
        }
    }

    /// A vGPU needs the machine to have an identity, one of its own, and the
    /// two to be the same.
    open spec fn valid_in(&self, vm: VmModel) -> bool {
        match self {
            GraphicsAdapter::VgpuVga { uuid, .. } => vm.uuid is Some && uuid@.len() > 0 && vm.uuid
                == Some(uuid@),
            _ => true,
        }
    }

    fn as_options(&self) -> (r: String) {
        match self {
            GraphicsAdapter::StdVga { ram_size_mb } => {
                let mut s = String::from_str("-device VGA,vgamem_mb=");
                s.append(int_to_text(*ram_size_mb as i64).as_str());
                s.append(",id=vm.vga");
                s
            },
            GraphicsAdapter::CirrusVga { ram_size_mb } => {
                let mut s = String::from_str("-device cirrus-vga,vgamem_mb=");
                s.append(int_to_text(*ram_size_mb as i64).as_str());
                s.append(",id=vm.vga");
                s
            },
            GraphicsAdapter::QxlVga {  } => String::from_str("-device qxl-vga,id=vm.vga"),
            GraphicsAdapter::VgpuVga {
                uuid,
                use_ramfb,
                pci_vendor_id,
                pci_device_id,
                pci_sub_vendor_id,
                pci_sub_device_id,
            } => {
                let mut s = String::from_str(
                    "-device vfio-pci-nohotplug,sysfsdev=/sys/bus/mdev/devices/",
                );
                s.append(uuid.as_str());
                s.append(",display=on,ramfb=");
                s.append(bool_to_qemu(*use_ramfb).as_str());
                s.append(",id=vm.vgpu,bus=vm.pcie_root,addr=0x0");
                if pci_vendor_id.is_some() {
                    append_optional(&mut s, ",x-pci-vendor-id=", pci_vendor_id);
                    append_optional(&mut s, ",x-pci-device-id=", pci_device_id);
                    append_optional(&mut s, ",x-pci-sub-vendor-id=", pci_sub_vendor_id);
                    append_optional(&mut s, ",x-pci-sub-device-id=", pci_sub_device_id);
                }
                assert(s@ =~= self.options_text());
                s
            },
        }
    }

    fn validate(&self, machine: &VirtualMachine) -> (r: bool) {
        match self {
            GraphicsAdapter::VgpuVga { uuid, .. } => match machine.uuid() {
                None => false,
                Some(own) => {
                    if uuid.as_str().unicode_len() == 0 {
                        false
                    } else {
                        str_eq(own, uuid.as_str())
                    }
                },
            },
            _ => true,
        }
    }
}

/// Whether two strings hold the same characters.
fn str_eq(a: &str, b: &str) -> (r: bool)
    ensures
        r == (a@ == b@),
{
    let n = a.unicode_len();
    if n != b.unicode_len() {
        return false;
    }
    let mut i: usize = 0;
    while i < n
        invariant
            n == a@.len(),
            n == b@.len(),
            i <= n,
            forall|k: int| 0 <= k < i ==> a@[k] == b@[k],
        decreases n - i,
    {
        if a.get_char(i) != b.get_char(i) {
            return false;
        }
        i = i + 1;
    }
    assert(a@ =~= b@);
    true
}

/// A host-side network backend.
pub enum Network {
    /// User-mode networking.
    User { id: String },
    /// A tap device on the host interface `dev`.
    Tap { id: String, dev: String },
}

impl QemuOption for Network {
    open spec fn options_text(&self) -> Seq<char> {
        match self {
            Network::User { id } => "-netdev user,id=vm."@ + id@,
            Network::Tap { id, dev } => "-netdev tap,vhost=on,script=no,downscript=no,ifname="@
                + dev@ + ",id=vm."@ + id@,
        }
    }

    open spec fn valid_in(&self, _vm: VmModel) -> bool {
        true
    }

    fn as_options(&self) -> (r: String) {
        match self {
            Network::User { id } => {
                let mut s = String::from_str("-netdev user,id=vm.");
                s.append(id.as_str());
                s
            },
            Network::Tap { id, dev } => {
                let mut s = String::from_str(
                    "-netdev tap,vhost=on,script=no,downscript=no,ifname=",
                );
                s.append(dev.as_str());
                s.append(",id=vm.");
                s.append(id.as_str());
                s
            },
        }
    }

    fn validate(&self, _machine: &VirtualMachine) -> (r: bool) {
        true
    }
}

/// A guest network card, joined to the backend named `netdev`.
pub enum NetworkAdapter {
    Virtio { id: String, netdev: String, mac: Option<String> },
    Rtl8139 { id: String, netdev: String, mac: Option<String> },
}

impl QemuOption for NetworkAdapter {
    open spec fn options_text(&self) -> Seq<char> {
        match self {
            NetworkAdapter::Virtio { id, netdev, mac } => "-device virtio-net-pci,id=vm."@ + id@
                + ",netdev=vm."@ + netdev@ + optional(",mac="@, *mac),
            NetworkAdapter::Rtl8139 { id, netdev, mac } => "-device rtl8139,id=vm."@ + id@
                + ",netdev=vm."@ + netdev@ + optional(",mac="@, *mac),
        }
    }

    open spec fn valid_in(&self, _vm: VmModel) -> bool {
        true
    }

    fn as_options(&self) -> (r: String) {
        match self {
            NetworkAdapter::Virtio { id, netdev, mac } => {
                let mut s = String::from_str("-device virtio-net-pci,id=vm.");
                s.append(id.as_str());
                s.append(",netdev=vm.");
                s.append(netdev.as_str());
                append_optional(&mut s, ",mac=", mac);
                s
            },
            NetworkAdapter::Rtl8139 { id, netdev, mac } => {
                let mut s = String::from_str("-device rtl8139,id=vm.");
                s.append(id.as_str());
                s.append(",netdev=vm.");
                s.append(netdev.as_str());
                append_optional(&mut s, ",mac=", mac);
                s
            },
        }
    }

    fn validate(&self, _machine: &VirtualMachine) -> (r: bool) {
        true
    }
}

/// Any device or drive that a machine can carry.
pub enum Device {
    Cpu(Cpu),
    Memory(Memory),
    Graphics(GraphicsAdapter),
    Controller(DiskController),
    Drive(DiskDrive),
    Network(Network),
    NetworkAdapter(NetworkAdapter),
}

impl QemuOption for Device {
    open spec fn options_text(&self) -> Seq<char> {
        match self {
            Device::Cpu(d) => d.options_text(),
            Device::Memory(d) => d.options_text(),
            Device::Graphics(d) => d.options_text(),
            Device::Controller(d) => d.options_text(),
            Device::Drive(d) => d.options_text(),
            Device::Network(d) => d.options_text(),
            Device::NetworkAdapter(d) => d.options_text(),
        }
    }

    open spec fn valid_in(&self, vm: VmModel) -> bool {
        match self {
            Device::Cpu(d) => d.valid_in(vm),
            Device::Memory(d) => d.valid_in(vm),
            Device::Graphics(d) => d.valid_in(vm),
            Device::Controller(d) => d.valid_in(vm),
            Device::Drive(d) => d.valid_in(vm),
            Device::Network(d) => d.valid_in(vm),
            Device::NetworkAdapter(d) => d.valid_in(vm),
        }
    }

    fn as_options(&self) -> (r: String) {
        match self {
            Device::Cpu(d) => d.as_options(),
            Device::Memory(d) => d.as_options(),
            Device::Graphics(d) => d.as_options(),
            Device::Controller(d) => d.as_options(),
            Device::Drive(d) => d.as_options(),
            Device::Network(d) => d.as_options(),
            Device::NetworkAdapter(d) => d.as_options(),
        }
    }

    fn validate(&self, machine: &VirtualMachine) -> (r: bool) {
        match self {
            Device::Cpu(d) => d.validate(machine),
            Device::Memory(d) => d.validate(machine),
            Device::Graphics(d) => d.validate(machine),
            Device::Controller(d) => d.validate(machine),
            Device::Drive(d) => d.validate(machine),
            Device::Network(d) => d.validate(machine),
            Device::NetworkAdapter(d) => d.validate(machine),
        }
    }
}

/// The text of an optional string.
pub open spec fn opt_view(o: Option<String>) -> Option<Seq<char>> {
    match o {
        Some(x) => Some(x@),
        None => None,
    }
}

/// Whether two devices are of the same kind and hold the same field values.
pub open spec fn same_fields(a: Device, b: Device) -> bool {
    match (a, b) {
        (Device::Cpu(x), Device::Cpu(y)) => x.model@ == y.model@ && views(x.features@) == views(
            y.features@,
        ) && x.core_count == y.core_count,
        (Device::Memory(x), Device::Memory(y)) => x.size@ == y.size@ && x.prealloc == y.prealloc,
        (Device::Graphics(x), Device::Graphics(y)) => match (x, y) {
            (
                GraphicsAdapter::StdVga { ram_size_mb: p },
                GraphicsAdapter::StdVga { ram_size_mb: q },
            ) => p == q,
            (
                GraphicsAdapter::CirrusVga { ram_size_mb: p },
                GraphicsAdapter::CirrusVga { ram_size_mb: q },
            ) => p == q,
            (GraphicsAdapter::QxlVga {  }, GraphicsAdapter::QxlVga {  }) => true,
            (
                GraphicsAdapter::VgpuVga {
                    uuid: u1,
                    use_ramfb: r1,
                    pci_vendor_id: v1,
                    pci_device_id: d1,
                    pci_sub_vendor_id: sv1,
                    pci_sub_device_id: sd1,
                },
                GraphicsAdapter::VgpuVga {
                    uuid: u2,
                    use_ramfb: r2,
                    pci_vendor_id: v2,
                    pci_device_id: d2,
                    pci_sub_vendor_id: sv2,
                    pci_sub_device_id: sd2,
                },
            ) => u1@ == u2@ && r1 == r2 && opt_view(v1) == opt_view(v2) && opt_view(d1) == opt_view(
                d2,
            ) && opt_view(sv1) == opt_view(sv2) && opt_view(sd1) == opt_view(sd2),
            _ => false,
        },
        (
            Device::Controller(DiskController::VirtioScsi { id: p }),
            Device::Controller(DiskController::VirtioScsi { id: q }),
        ) => p@ == q@,
        (Device::Drive(x), Device::Drive(y)) => match (x, y) {
            (
                DiskDrive::CdDrive { interface: i1, id: n1 },
                DiskDrive::CdDrive { interface: i2, id: n2 },
            ) => i1 == i2 && n1@ == n2@,
            (
                DiskDrive::HdDrive {
                    id: n1,
                    interface: i1,
                    image_path: p1,
                    readonly: r1,
                    format: f1,
                    ssd: s1,
                    cache: c1,
                    aio: a1,
                },
                DiskDrive::HdDrive {
                    id: n2,
                    interface: i2,
                    image_path: p2,
                    readonly: r2,
                    format: f2,
                    ssd: s2,
                    cache: c2,
                    aio: a2,
                },
            ) => n1@ == n2@ && i1 == i2 && p1@ == p2@ && r1 == r2 && f1@ == f2@ && s1 == s2
                && opt_view(c1) == opt_view(c2) && opt_view(a1) == opt_view(a2),
            (
                DiskDrive::Pflash { id: n1, image_path: p1, readonly: r1, format: f1 },
                DiskDrive::Pflash { id: n2, image_path: p2, readonly: r2, format: f2 },
            ) => n1@ == n2@ && p1@ == p2@ && r1 == r2 && f1@ == f2@,
            _ => false,
        },
        (Device::Network(x), Device::Network(y)) => match (x, y) {
            (Network::User { id: p }, Network::User { id: q }) => p@ == q@,
            (Network::Tap { id: p, dev: e }, Network::Tap { id: q, dev: f }) => p@ == q@ && e@
                == f@,
            _ => false,
        },
        (Device::NetworkAdapter(x), Device::NetworkAdapter(y)) => match (x, y) {
            (
                NetworkAdapter::Virtio { id: p, netdev: n, mac: m },
                NetworkAdapter::Virtio { id: q, netdev: o, mac: l },
            ) => p@ == q@ && n@ == o@ && opt_view(m) == opt_view(l),
            (
                NetworkAdapter::Rtl8139 { id: p, netdev: n, mac: m },
                NetworkAdapter::Rtl8139 { id: q, netdev: o, mac: l },
            ) => p@ == q@ && n@ == o@ && opt_view(m) == opt_view(l),
            _ => false,
        },
        _ => false,
    }
}

/// Rendering depends on a device's field values alone: two devices of the
/// same kind with the same field values render to the same text, and pass or
/// fail the same checks on any machine.
pub proof fn lemma_render_depends_on_fields(a: Device, b: Device, vm: VmModel)
    requires
        same_fields(a, b),
    ensures
        a.options_text() == b.options_text(),
        a.valid_in(vm) == b.valid_in(vm),
{
    match (a, b) {
        (Device::Drive(x), Device::Drive(y)) => {
            match (x, y) {
                (
                    DiskDrive::HdDrive { cache: c1, aio: a1, .. },
                    DiskDrive::HdDrive { cache: c2, aio: a2, .. },
                ) => {
                    assert(optional(",cache="@, c1) == optional(",cache="@, c2));
                    assert(optional(",aio="@, a1) == optional(",aio="@, a2));
                },
                _ => {},
            }
        },
        (Device::Graphics(x), Device::Graphics(y)) => {
            match (x, y) {
                (
                    GraphicsAdapter::VgpuVga {
                        pci_vendor_id: v1,
                        pci_device_id: d1,
                        pci_sub_vendor_id: sv1,
                        pci_sub_device_id: sd1,
                        ..
                    },
                    GraphicsAdapter::VgpuVga {
                        pci_vendor_id: v2,
                        pci_device_id: d2,
                        pci_sub_vendor_id: sv2,
                        pci_sub_device_id: sd2,
                        ..
                    },
                ) => {
                    assert(vgpu_ids(v1, d1, sv1, sd1) == vgpu_ids(v2, d2, sv2, sd2));
                },
                _ => {},
            }
        },
        (Device::NetworkAdapter(x), Device::NetworkAdapter(y)) => {
            match (x, y) {
                (
                    NetworkAdapter::Virtio { mac: m, .. },
                    NetworkAdapter::Virtio { mac: l, .. },
                ) => {
                    assert(optional(",mac="@, m) == optional(",mac="@, l));
                },
                (
                    NetworkAdapter::Rtl8139 { mac: m, .. },
                    NetworkAdapter::Rtl8139 { mac: l, .. },
                ) => {
                    assert(optional(",mac="@, m) == optional(",mac="@, l));
                },
                _ => {},
            }
        },
        _ => {},
    }
}

} // verus!
