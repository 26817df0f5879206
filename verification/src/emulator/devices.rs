use vstd::prelude::*;
use crate::escpos::commands::EscPosCommand;
use crate::escpos::printer::{LineView, PaperWidth, PrinterModel, PrinterState, ReceiptLine, lines_view};

verus! {

/// One printer state per sending device, found by the device's address.
pub struct DevicePrinters {
    ips: Vec<String>,
    printers: Vec<PrinterState>,
}

impl DevicePrinters {
    /// Every address occurs once, and each has its printer.
    #[verifier::type_invariant]
    closed spec fn wf(&self) -> bool {
        &&& self.ips@.len() == self.printers@.len()
        &&& forall|i: int, j: int|
            0 <= i < j < self.ips@.len() ==> #[trigger] self.ips@[i]@ != #[trigger] self.ips@[j]@
    }

    closed spec fn has(&self, ip: Seq<char>) -> bool {
        exists|i: int| 0 <= i < self.ips@.len() && #[trigger] self.ips@[i]@ == ip
    }

    closed spec fn index_of(&self, ip: Seq<char>) -> int {
        choose|i: int| 0 <= i < self.ips@.len() && #[trigger] self.ips@[i]@ == ip
    }

    proof fn lemma_index_of(&self, i: int)
        requires
            self.wf(),
            0 <= i < self.ips@.len(),
        ensures
            self.has(self.ips@[i]@),
            self.index_of(self.ips@[i]@) == i,
    {
        let k = self.ips@[i]@;
        assert(self.ips@[i]@ == k);
        let j = self.index_of(k);
        if j != i {
            if j < i {
                assert(self.ips@[j]@ != self.ips@[i]@);
            } else {
                assert(self.ips@[i]@ != self.ips@[j]@);
            }
        }
    }
}

/// The index at which an address stands in a list of addresses, if it does.
fn position_of(ips: &Vec<String>, key: &String) -> (r: Option<usize>)
    ensures
        match r {
            Some(i) => i < ips@.len() && ips@[i as int]@ == key@,
            None => forall|j: int| 0 <= j < ips@.len() ==> #[trigger] ips@[j]@ != key@,
        },
{
    let n = ips.len();
    let mut i: usize = 0;
    while i < n
        invariant
            n == ips@.len(),
            0 <= i <= n,
            forall|j: int| 0 <= j < i ==> #[trigger] ips@[j]@ != key@,
        decreases n - i,
    {
        if ips[i] == *key {
            return Some(i);
        }
        i = i + 1;
    }
    None
}

impl View for DevicePrinters {
    type V = Map<Seq<char>, PrinterModel>;

    closed spec fn view(&self) -> Map<Seq<char>, PrinterModel> {
        Map::new(|ip: Seq<char>| self.has(ip), |ip: Seq<char>| self.printers@[self.index_of(ip)]@)
    }
}

/// The printer that a device's commands go to: its own, or a fresh one for a new device.
pub open spec fn device_or_new(devices: Map<Seq<char>, PrinterModel>, ip: Seq<char>) -> PrinterModel {
    if devices.contains_key(ip) {
        devices[ip]
    } else {
        PrinterModel::initial()
    }
}

impl DevicePrinters {
    pub fn new() -> (d: Self)
        ensures
            d@ == Map::<Seq<char>, PrinterModel>::empty(),
    {
        let d = DevicePrinters { ips: Vec::new(), printers: Vec::new() };
        assert(d@ =~= Map::<Seq<char>, PrinterModel>::empty());
        d
    }

    fn find(&self, key: &String) -> (r: Option<usize>)
        ensures
            match r {
                Some(i) => i < self.ips@.len() && self.ips@[i as int]@ == key@,
                None => !self.has(key@),
            },
    {
        position_of(&self.ips, key)
    }

    /// Replacing the printer at an index changes the map at that index's address only.
    proof fn lemma_view_update(old_d: &Self, new_d: &Self, i: int)
        requires
            old_d.wf(),
            0 <= i < old_d.ips@.len(),
            new_d.ips@ == old_d.ips@,
            new_d.printers@.len() == old_d.printers@.len(),
            forall|j: int| 0 <= j < old_d.printers@.len() && j != i ==> new_d.printers@[j] == old_d.printers@[j],
        ensures
            new_d.wf(),
            new_d@ == old_d@.insert(old_d.ips@[i]@, new_d.printers@[i]@),
    {
        let k = old_d.ips@[i]@;
        old_d.lemma_index_of(i);
        new_d.lemma_index_of(i);
        assert forall|ip: Seq<char>| #[trigger] new_d.has(ip) == old_d.has(ip) by {
            if old_d.has(ip) {
                let j = old_d.index_of(ip);
                assert(new_d.ips@[j]@ == ip);
            }
            if new_d.has(ip) {
                let j = new_d.index_of(ip);
                assert(old_d.ips@[j]@ == ip);
            }
        }
        assert forall|ip: Seq<char>| old_d.has(ip) && ip != k implies new_d.printers@[new_d.index_of(
            ip,
        )] == old_d.printers@[old_d.index_of(ip)] by {
            let j = old_d.index_of(ip);
            old_d.lemma_index_of(j);
            new_d.lemma_index_of(j);
        }
        assert(new_d@ =~= old_d@.insert(k, new_d.printers@[i]@));
    }

    /// Adding a new address with its printer adds that pair to the map.
    proof fn lemma_view_push(old_d: &Self, new_d: &Self, key: Seq<char>)
        requires
            old_d.wf(),
            !old_d.has(key),
            new_d.ips@.len() == old_d.ips@.len() + 1,
            new_d.printers@.len() == old_d.printers@.len() + 1,
            new_d.ips@.drop_last() == old_d.ips@,
            new_d.printers@.drop_last() == old_d.printers@,
            new_d.ips@.last()@ == key,
        ensures
            new_d.wf(),
            new_d@ == old_d@.insert(key, new_d.printers@.last()@),
    {
        let n = old_d.ips@.len() as int;
        assert forall|i: int, j: int|
            0 <= i < j < new_d.ips@.len() implies #[trigger] new_d.ips@[i]@ != #[trigger] new_d.ips@[j]@ by {
            assert(new_d.ips@[i] == old_d.ips@[i]);
            if j < n {
                assert(new_d.ips@[j] == old_d.ips@[j]);
            } else {
                assert(old_d.ips@[i]@ != key);
            }
        }
        new_d.lemma_index_of(n);
        assert forall|ip: Seq<char>| #[trigger] new_d.has(ip) == (old_d.has(ip) || ip == key) by {
            if old_d.has(ip) {
                let j = old_d.index_of(ip);
                assert(new_d.ips@[j] == old_d.ips@[j]);
            }
            if new_d.has(ip) && ip != key {
                let j = new_d.index_of(ip);
                assert(j != n);
                assert(old_d.ips@[j] == new_d.ips@[j]);
            }
        }
        assert forall|ip: Seq<char>| old_d.has(ip) implies new_d.printers@[new_d.index_of(ip)]
            == old_d.printers@[old_d.index_of(ip)] by {
            let j = old_d.index_of(ip);
            old_d.lemma_index_of(j);
            assert(new_d.ips@[j] == old_d.ips@[j]);
            new_d.lemma_index_of(j);
            assert(new_d.printers@[j] == old_d.printers@[j]);
        }
        assert(new_d@ =~= old_d@.insert(key, new_d.printers@.last()@));
    }

    /// Processes a command on the device's printer, creating the printer for a new device.
    pub fn process_command(&mut self, device_ip: &str, command: &EscPosCommand)
        ensures
            final(self)@ == old(self)@.insert(
                device_ip@,
                device_or_new(old(self)@, device_ip@).after(command@),
            ),
    {
        proof {
            use_type_invariant(&*self);
        }
        let key = device_ip.to_owned();
        let ghost old_d = *self;
        let mut whole = DevicePrinters::new();
        std::mem::swap(&mut whole, self);
        let DevicePrinters { mut ips, mut printers } = whole;
        match position_of(&ips, &key) {
            Some(i) => {
                proof {
                    old_d.lemma_index_of(i as int);
                }
                let mut p = PrinterState::new();
                std::mem::swap(&mut p, &mut printers[i]);
                assert(p == old_d.printers@[i as int]);
                p.process_command(command);
                printers.set(i, p);
                proof {
                    let new_d = DevicePrinters { ips: ips, printers: printers };
                    DevicePrinters::lemma_view_update(&old_d, &new_d, i as int);
                }
                *self = DevicePrinters { ips, printers };
            },
            None => {
                let mut p = PrinterState::new();
                p.process_command(command);
                ips.push(key);
                printers.push(p);
                proof {
                    let new_d = DevicePrinters { ips: ips, printers: printers };
                    assert(new_d.ips@.drop_last() =~= old_d.ips@);
                    assert(new_d.printers@.drop_last() =~= old_d.printers@);
                    DevicePrinters::lemma_view_push(&old_d, &new_d, device_ip@);
                }
                *self = DevicePrinters { ips, printers };
            },
        }
    }

    /// Takes a device's receipt lines, leaving its receipt empty, together with the
    /// width of its paper; `None` for a device that sent nothing yet.
    pub fn take_buffer(&mut self, device_ip: &str) -> (r: Option<(Vec<ReceiptLine>, PaperWidth)>)
        ensures
            match r {
                Some((lines, width)) => {
                    &&& old(self)@.contains_key(device_ip@)
                    &&& lines_view(lines@) == old(self)@[device_ip@].buffer
                    &&& width == old(self)@[device_ip@].paper_width
                    &&& final(self)@ == old(self)@.insert(
                        device_ip@,
                        PrinterModel { buffer: Seq::empty(), ..old(self)@[device_ip@] },
                    )
                },
                None => !old(self)@.contains_key(device_ip@) && final(self)@ == old(self)@,
            },
    {
        proof {
            use_type_invariant(&*self);
        }
        let key = device_ip.to_owned();
        let ghost old_d = *self;
        match self.find(&key) {
            Some(i) => {
                proof {
                    old_d.lemma_index_of(i as int);
                }
                let mut whole = DevicePrinters::new();
                std::mem::swap(&mut whole, self);
                let DevicePrinters { ips, mut printers } = whole;
                let mut p = PrinterState::new();
                std::mem::swap(&mut p, &mut printers[i]);
                assert(p == old_d.printers@[i as int]);
                let lines = p.take_buffer();
                let width = p.paper_width;
                printers.set(i, p);
                proof {
                    let new_d = DevicePrinters { ips: ips, printers: printers };
                    DevicePrinters::lemma_view_update(&old_d, &new_d, i as int);
                }
                *self = DevicePrinters { ips, printers };
                Some((lines, width))
            },
            None => None,
        }
    }

    /// Puts receipt lines back at the start of a device's receipt (a new device
    /// gets a fresh printer holding them).
    pub fn put_back(&mut self, device_ip: &str, lines: Vec<ReceiptLine>)
        ensures
            final(self)@ == old(self)@.insert(
                device_ip@,
                PrinterModel {
                    buffer: lines_view(lines@) + device_or_new(old(self)@, device_ip@).buffer,
                    ..device_or_new(old(self)@, device_ip@)
                },
            ),
    {
        proof {
            use_type_invariant(&*self);
        }
        let key = device_ip.to_owned();
        let ghost old_d = *self;
        let ghost first = lines@;
        let mut restored = lines;
        let mut whole = DevicePrinters::new();
        std::mem::swap(&mut whole, self);
        let DevicePrinters { mut ips, mut printers } = whole;
        match position_of(&ips, &key) {
            Some(i) => {
                proof {
                    old_d.lemma_index_of(i as int);
                }
                let mut p = PrinterState::new();
                std::mem::swap(&mut p, &mut printers[i]);
                assert(p == old_d.printers@[i as int]);
                let ghost rest = p.buffer@;
                restored.append(&mut p.buffer);
                p.buffer = restored;
                proof {
                    assert(lines_view(first + rest) =~= lines_view(first) + lines_view(rest));
                }
                printers.set(i, p);
                proof {
                    let new_d = DevicePrinters { ips: ips, printers: printers };
                    DevicePrinters::lemma_view_update(&old_d, &new_d, i as int);
                }
                *self = DevicePrinters { ips, printers };
            },
            None => {
                let mut p = PrinterState::new();
                proof {
                    assert(lines_view(first) =~= lines_view(first) + Seq::<LineView>::empty());
                }
                p.buffer = restored;
                ips.push(key);
                printers.push(p);
                proof {
                    let new_d = DevicePrinters { ips: ips, printers: printers };
                    assert(new_d.ips@.drop_last() =~= old_d.ips@);
                    assert(new_d.printers@.drop_last() =~= old_d.printers@);
                    DevicePrinters::lemma_view_push(&old_d, &new_d, device_ip@);
                }
                *self = DevicePrinters { ips, printers };
            },
        }
    }

    /// The printer of a device, if it sent anything.
    pub fn get(&self, device_ip: &str) -> (r: Option<&PrinterState>)
        ensures
            match r {
                Some(p) => self@.contains_key(device_ip@) && p@ == self@[device_ip@],
                None => !self@.contains_key(device_ip@),
            },
    {
        proof {
            use_type_invariant(self);
        }
        let key = device_ip.to_owned();
        match self.find(&key) {
            Some(i) => {
                proof {
                    self.lemma_index_of(i as int);
                }
                Some(&self.printers[i])
            },
            None => None,
        }
    }
}

} // verus!
