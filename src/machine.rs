//! The virtual machine aggregate and its compilation into QEMU arguments.

use vstd::prelude::*;
use crate::devices::{views, Device, MachineType, QemuOption};
use crate::errors::{VMCreateError, VMQemuProcessStartError};

verus! {

/// What a virtual machine holds, as mathematical values.
pub struct VmModel {
    pub name: Seq<char>,
    pub uuid: Option<Seq<char>>,
    pub machine: Option<MachineType>,
    pub devices: Seq<Device>,
    pub drives: Seq<Device>,
}

/// Whether the character is white space, as Unicode's `White_Space` property
/// has it.
pub open spec fn is_whitespace(c: char) -> bool {
    let u = c as u32;
    (0x9 <= u <= 0xd) || u == 0x20 || u == 0x85 || u == 0xa0 || u == 0x1680 || (0x2000 <= u
        <= 0x200a) || u == 0x2028 || u == 0x2029 || u == 0x202f || u == 0x205f || u == 0x3000
}

/// A machine name: no white space anywhere in it.
pub open spec fn valid_name(s: Seq<char>) -> bool {
    forall|i: int| 0 <= i < s.len() ==> !is_whitespace(#[trigger] s[i])
}

/// What stands in the arguments for a device that failed its check.
pub open spec fn invalid_device_text() -> Seq<char> {
    "invalid-device"@
}

/// The flag that names the machine and its process.
pub open spec fn name_text(name: Seq<char>) -> Seq<char> {
    "-name "@ + name + ",process=sunlight_"@ + name
}

/// The fragment a device contributes on the machine: its rendering, or the
/// placeholder when it does not fit the machine.
pub open spec fn fragment(d: Device, vm: VmModel) -> Seq<char> {
    if d.valid_in(vm) {
        d.options_text()
    } else {
        invalid_device_text()
    }
}

/// The fragments of a list of devices, in order.
pub open spec fn fragments(ds: Seq<Device>, vm: VmModel) -> Seq<Seq<char>> {
    ds.map_values(|d: Device| fragment(d, vm))
}

/// The full argument list of a machine that has a chipset.
pub open spec fn arguments(vm: VmModel) -> Seq<Seq<char>> {
    seq!["-nodefaults"@, "-accel kvm"@, name_text(vm.name), vm.machine->0.options_text()]
        + fragments(vm.devices, vm) + fragments(vm.drives, vm)
}

fn is_whitespace_char(c: char) -> (r: bool)
    ensures
        r == is_whitespace(c),
{
    let u = c as u32;
    (0x9 <= u && u <= 0xd) || u == 0x20 || u == 0x85 || u == 0xa0 || u == 0x1680 || (0x2000 <= u
        && u <= 0x200a) || u == 0x2028 || u == 0x2029 || u == 0x202f || u == 0x205f || u == 0x3000
}

/// Whether the name has no white space in it.
pub fn is_valid_name(name: &str) -> (r: bool)
    ensures
        r == valid_name(name@),
{
    let n = name.unicode_len();
    let mut i: usize = 0;
    while i < n
        invariant
            n == name@.len(),
            i <= n,
            forall|k: int| 0 <= k < i ==> !is_whitespace(#[trigger] name@[k]),
        decreases n - i,
    {
        if is_whitespace_char(name.get_char(i)) {
            return false;
        }
        i = i + 1;
    }
    true
}

/// Renders each device, or the placeholder where it does not fit the machine.
fn join_options(entries: &Vec<Device>, machine: &VirtualMachine) -> (r: Vec<String>)
    ensures
        views(r@) == fragments(entries@, machine@),
{
    let mut out: Vec<String> = Vec::new();
    let mut i: usize = 0;
    while i < entries.len()
        invariant
            i <= entries@.len(),
            views(out@) =~= fragments(entries@.take(i as int), machine@),
        decreases entries@.len() - i,
    {
        let d = &entries[i];
        let text = if d.validate(machine) {
            d.as_options()
        } else {
            String::from_str("invalid-device")
        };
        assert(text@ == fragment(entries@[i as int], machine@));
        let ghost before = out@;
        out.push(text);
        proof {
            assert(entries@.take(i + 1) =~= entries@.take(i as int).push(entries@[i as int]));
            assert(out@ == before.push(text));
            assert(views(out@) =~= views(before).push(text@));
        }
        i = i + 1;
    }
    assert(entries@.take(entries@.len() as int) =~= entries@);
    out
}

/// A QEMU virtual machine: its identity, chipset, and devices and drives in
/// the order they were attached.
pub struct VirtualMachine {
    name: String,
    uuid: Option<String>,
    machine: Option<MachineType>,
    devices: Vec<Device>,
    drives: Vec<Device>,
}

impl View for VirtualMachine {
    type V = VmModel;

    closed spec fn view(&self) -> VmModel {
        VmModel {
            name: self.name@,
            uuid: match self.uuid {
                Some(u) => Some(u@),
                None => None,
            },
            machine: self.machine,
            devices: self.devices@,
            drives: self.drives@,
        }
    }
}

impl VirtualMachine {
    /// The identity string, if one was set.
    pub fn uuid(&self) -> (r: Option<&str>)
        ensures
            r is None <==> self@.uuid is None,
            r is Some ==> self@.uuid == Some(r->0@),
    {
        match &self.uuid {
            Some(u) => Some(u.as_str()),
            None => None,
        }
    }

    /// The chipset, if one was attached.
    pub fn machine_type(&self) -> (r: Option<MachineType>)
        ensures
            r == self@.machine,
    {
        self.machine
    }

    /// Creates a machine with the given name, no identity, no chipset and no
    /// devices; fails when the name holds white space.
    pub fn new(name: &str) -> (r: Result<VirtualMachine, VMCreateError>)
        ensures
            r is Ok <==> valid_name(name@),
            r matches Ok(vm) ==> vm@ == (VmModel {
                name: name@,
                uuid: None,
                machine: None,
                devices: Seq::empty(),
                drives: Seq::empty(),
            }),
            r matches Err(e) ==> e == VMCreateError::InvalidName,
    {
        if !is_valid_name(name) {
            return Err(VMCreateError::InvalidName);
        }
        Ok(VirtualMachine {
            name: String::from_str(name),
            uuid: None,
            machine: None,
            devices: Vec::new(),
            drives: Vec::new(),
        })
    }

    /// Renames the machine; a name with white space is refused and leaves the
    /// machine as it was.
    pub fn set_name(&mut self, name: &str) -> (r: Result<(), VMCreateError>)
        ensures
            r is Ok <==> valid_name(name@),
            r is Ok ==> final(self)@ == (VmModel { name: name@, ..old(self)@ }),
            r matches Err(e) ==> e == VMCreateError::InvalidName && final(self)@ == old(self)@,
    {
        if !is_valid_name(name) {
            return Err(VMCreateError::InvalidName);
        }
        self.name = String::from_str(name);
        Ok(())
    }

    /// Sets the machine's identity string.
    pub fn set_uuid(&mut self, uuid: &str)
        ensures
            final(self)@ == (VmModel { uuid: Some(uuid@), ..old(self)@ }),
    {
        self.uuid = Some(String::from_str(uuid));
    }

    /// Sets the chipset, replacing any earlier one.
    pub fn set_machine_type(&mut self, machine: MachineType)
        ensures
            final(self)@ == (VmModel { machine: Some(machine), ..old(self)@ }),
    {
        self.machine = Some(machine);
    }

    /// Attaches a device after those already attached.
    pub fn add_device(&mut self, dev: Device)
        ensures
            final(self)@ == (VmModel { devices: old(self)@.devices.push(dev), ..old(self)@ }),
    {
        self.devices.push(dev);
    }

    /// Attaches a drive after those already attached.
    pub fn add_drive(&mut self, dev: Device)
        ensures
            final(self)@ == (VmModel { drives: old(self)@.drives.push(dev), ..old(self)@ }),
    {
        self.drives.push(dev);
    }

    /// The QEMU arguments that run this machine: fixed flags, the name, the
    /// chipset, then each device and each drive in the order attached. Fails
    /// when no chipset was set.
    pub fn to_arguments(&self) -> (r: Result<Vec<String>, VMQemuProcessStartError>)
        ensures
            r is Ok <==> self@.machine is Some,
            r matches Ok(args) ==> views(args@) == arguments(self@),
            r matches Err(e) ==> e is NoMachineType,
    {
        let machine = match self.machine {
            Some(m) => m,
            None => return Err(VMQemuProcessStartError::NoMachineType),
        };
        let mut args: Vec<String> = Vec::new();
        args.push(String::from_str("-nodefaults"));
        args.push(String::from_str("-accel kvm"));
        let mut name = String::from_str("-name ");
        name.append(self.name.as_str());
        name.append(",process=sunlight_");
        name.append(self.name.as_str());
        args.push(name);
        args.push(machine.as_options());
        let mut devices = join_options(&self.devices, self);
        args.append(&mut devices);
        let mut drives = join_options(&self.drives, self);
        args.append(&mut drives);
        assert(views(args@) =~= arguments(self@));
        Ok(args)
    }

    /// The arguments to hand to the process launcher; any failure to build
    /// them is reported as a command-line error.
    pub fn start(&self) -> (r: Result<Vec<String>, VMQemuProcessStartError>)
        ensures
            r is Ok <==> self@.machine is Some,
            r matches Ok(args) ==> views(args@) == arguments(self@),
            r matches Err(e) ==> e is ErrorBuildingCommandLine,
    {
        match self.to_arguments() {
            Ok(args) => Ok(args),
            Err(_) => Err(VMQemuProcessStartError::ErrorBuildingCommandLine),
        }
    }
}

/// Attachment order is argument order: on a machine with a chipset, the
/// devices `ds` attached one after another after those already there render,
/// in that order, right after the earlier devices, which come after the
/// chipset; the drives follow all of them.
pub proof fn lemma_attachment_order(vm: VmModel, ds: Seq<Device>)
    requires
        vm.machine is Some,
    ensures
        ({
            let w = VmModel { devices: vm.devices + ds, ..vm };
            let args = arguments(w);
            &&& args.len() == 4 + vm.devices.len() + ds.len() + vm.drives.len()
            &&& args[3] == vm.machine->0.options_text()
            &&& forall|k: int|
                0 <= k < ds.len() ==> args[4 + vm.devices.len() + k] == fragment(#[trigger] ds[k], w)
            &&& forall|j: int|
                0 <= j < vm.drives.len() ==> args[4 + vm.devices.len() + ds.len() + j] == fragment(
                    #[trigger] vm.drives[j],
                    w,
                )
        }),
{
    let w = VmModel { devices: vm.devices + ds, ..vm };
    let args = arguments(w);
    let head = seq!["-nodefaults"@, "-accel kvm"@, name_text(w.name), w.machine->0.options_text()];
    assert forall|k: int| 0 <= k < ds.len() implies args[4 + vm.devices.len() + k] == fragment(
        #[trigger] ds[k],
        w,
    ) by {
        assert(w.devices[vm.devices.len() + k] == ds[k]);
        assert(args[4 + vm.devices.len() + k] == fragments(w.devices, w)[vm.devices.len() + k]);
    }
    assert forall|j: int| 0 <= j < vm.drives.len() implies args[4 + vm.devices.len() + ds.len()
        + j] == fragment(#[trigger] vm.drives[j], w) by {
        assert(args[4 + w.devices.len() + j] == fragments(w.drives, w)[j]);
    }
}

} // verus!
