use vstd::prelude::*;
use vstd::slice::slice_to_vec;

verus! {

/// The exception code a device answers with when it rejects a request.
///
/// Declares `tokio_modbus::ExceptionCode` so that it can be carried through;
/// nothing is claimed about what a value of it holds.
#[verifier::external_type_specification]
#[verifier::external_body]
pub struct ExExceptionCode(tokio_modbus::ExceptionCode);

/// A failure of the transport or of the protocol framing.
///
/// Declares `tokio_modbus::Error` so that it can be carried through;
/// nothing is claimed about what a value of it holds.
#[verifier::external_type_specification]
#[verifier::external_body]
pub struct ExError(tokio_modbus::Error);

/// A register or coil address.
pub type Address = u16;

/// A number of registers or coils.
pub type Quantity = u16;

/// One Modbus primitive together with its arguments.
#[derive(Debug, PartialEq, Eq)]
pub enum Request {
    ReadCoils(Address, Quantity),
    ReadDiscreteInputs(Address, Quantity),
    ReadHoldingRegisters(Address, Quantity),
    ReadInputRegisters(Address, Quantity),
    ReadWriteMultipleRegisters(Address, Quantity, Address, Vec<u16>),
    WriteSingleCoil(Address, bool),
    WriteSingleRegister(Address, u16),
    WriteMultipleCoils(Address, Vec<bool>),
    WriteMultipleRegisters(Address, Vec<u16>),
    MaskedWriteRegister(Address, u16, u16),
}

/// What a `Request` says, with sequences in place of vectors.
#[verifier::ext_equal]
pub enum RequestView {
    ReadCoils(Address, Quantity),
    ReadDiscreteInputs(Address, Quantity),
    ReadHoldingRegisters(Address, Quantity),
    ReadInputRegisters(Address, Quantity),
    ReadWriteMultipleRegisters(Address, Quantity, Address, Seq<u16>),
    WriteSingleCoil(Address, bool),
    WriteSingleRegister(Address, u16),
    WriteMultipleCoils(Address, Seq<bool>),
    WriteMultipleRegisters(Address, Seq<u16>),
    MaskedWriteRegister(Address, u16, u16),
}

impl View for Request {
    type V = RequestView;

    open spec fn view(&self) -> RequestView {
        match *self {
            Request::ReadCoils(addr, cnt) => RequestView::ReadCoils(addr, cnt),
            Request::ReadDiscreteInputs(addr, cnt) => RequestView::ReadDiscreteInputs(addr, cnt),
            Request::ReadHoldingRegisters(addr, cnt) => RequestView::ReadHoldingRegisters(
                addr,
                cnt,
            ),
            Request::ReadInputRegisters(addr, cnt) => RequestView::ReadInputRegisters(addr, cnt),
            Request::ReadWriteMultipleRegisters(
                read_addr,
                read_count,
                write_addr,
                write_data,
            ) => RequestView::ReadWriteMultipleRegisters(
                read_addr,
                read_count,
                write_addr,
                write_data@,
            ),
            Request::WriteSingleCoil(addr, coil) => RequestView::WriteSingleCoil(addr, coil),
            Request::WriteSingleRegister(addr, word) => RequestView::WriteSingleRegister(
                addr,
                word,
            ),
            Request::WriteMultipleCoils(addr, coils) => RequestView::WriteMultipleCoils(
                addr,
                coils@,
            ),
            Request::WriteMultipleRegisters(addr, words) => RequestView::WriteMultipleRegisters(
                addr,
                words@,
            ),
            Request::MaskedWriteRegister(addr, and_mask, or_mask) => {
                RequestView::MaskedWriteRegister(addr, and_mask, or_mask)
            },
        }
    }
}

/// The payload of a response that reports success.
#[derive(Debug, PartialEq, Eq)]
pub enum Response {
    /// The states that a coil or discrete-input read returned.
    Bits(Vec<bool>),
    /// The words that a register read returned.
    Words(Vec<u16>),
    /// The acknowledgement of a write.
    Written,
}

/// How one transaction ended: its payload, the exception the device answered
/// with, or the failure of the link itself.
pub type Reply = Result<Result<Response, tokio_modbus::ExceptionCode>, tokio_modbus::Error>;

/// The word that a reply to a read of one register carries: the first word
/// of a reply that carries words, if it has one.
pub open spec fn spec_first_word(reply: Reply) -> Option<u16> {
    match reply {
        Ok(Ok(Response::Words(words))) => if words@.len() >= 1 {
            Some(words@[0])
        } else {
            None
        },
        _ => None,
    }
}

/// The state that a reply to a read of one coil or input carries: the first
/// state of a reply that carries states, if it has one.
pub open spec fn spec_first_bit(reply: Reply) -> Option<bool> {
    match reply {
        Ok(Ok(Response::Bits(bits))) => if bits@.len() >= 1 {
            Some(bits@[0])
        } else {
            None
        },
        _ => None,
    }
}

/// Takes the acknowledgement out of a reply to a write. A reply that
/// carries anything else comes back as it is.
pub fn take_written(reply: Reply) -> (r: Result<(), Reply>)
    ensures
        r == match reply {
            Ok(Ok(Response::Written)) => Ok::<(), Reply>(()),
            _ => Err(reply),
        },
{
    match reply {
        Ok(Ok(Response::Written)) => Ok(()),
        other => Err(other),
    }
}

/// Takes the words out of a reply to a register read. A reply that carries
/// no words comes back as it is.
pub fn take_words(reply: Reply) -> (r: Result<Vec<u16>, Reply>)
    ensures
        r == match reply {
            Ok(Ok(Response::Words(words))) => Ok::<Vec<u16>, Reply>(words),
            _ => Err(reply),
        },
{
    match reply {
        Ok(Ok(Response::Words(words))) => Ok(words),
        other => Err(other),
    }
}

/// Takes the states out of a reply to a coil or input read. A reply that
/// carries no states comes back as it is.
pub fn take_bits(reply: Reply) -> (r: Result<Vec<bool>, Reply>)
    ensures
        r == match reply {
            Ok(Ok(Response::Bits(bits))) => Ok::<Vec<bool>, Reply>(bits),
            _ => Err(reply),
        },
{
    match reply {
        Ok(Ok(Response::Bits(bits))) => Ok(bits),
        other => Err(other),
    }
}

/// Takes the first word out of a reply to a register read. A reply that
/// carries no word comes back as it is.
pub fn take_first_word(reply: Reply) -> (r: Result<u16, Reply>)
    ensures
        r == match spec_first_word(reply) {
            Some(word) => Ok::<u16, Reply>(word),
            None => Err(reply),
        },
{
    match reply {
        Ok(Ok(Response::Words(words))) => {
            if words.len() >= 1 {
                Ok(words[0])
            } else {
                Err(Ok(Ok(Response::Words(words))))
            }
        },
        other => Err(other),
    }
}

/// Takes the first state out of a reply to a coil or input read. A reply
/// that carries no state comes back as it is.
pub fn take_first_bit(reply: Reply) -> (r: Result<bool, Reply>)
    ensures
        r == match spec_first_bit(reply) {
            Some(on) => Ok::<bool, Reply>(on),
            None => Err(reply),
        },
{
    match reply {
        Ok(Ok(Response::Bits(bits))) => {
            if bits.len() >= 1 {
                Ok(bits[0])
            } else {
                Err(Ok(Ok(Response::Bits(bits))))
            }
        },
        other => Err(other),
    }
}

/// One unit of work for the link: the slave to select, then the request to
/// send to it.
#[derive(Debug, PartialEq, Eq)]
pub struct Exchange {
    pub slave: u8,
    pub request: Request,
}

/// One step on the physical link.
pub enum WireStep {
    /// The link's current slave is set.
    Select(u8),
    /// A request is sent on behalf of the device with this address.
    Transact(u8, RequestView),
}

impl WireStep {
    /// The device that the step belongs to: the slave that is selected, or
    /// the device that sends the request.
    pub open spec fn slave(self) -> u8 {
        match self {
            WireStep::Select(slave) => slave,
            WireStep::Transact(sender, _) => sender,
        }
    }
}

/// The two steps of one unit, in the order in which they happen.
pub open spec fn unit_steps(slave: u8, request: RequestView) -> Seq<WireStep> {
    seq![WireStep::Select(slave), WireStep::Transact(slave, request)]
}

/// Whether step `i` of the trace has its partner beside it: a selection is
/// directly followed by a request of the device that was selected, and a
/// request directly follows the selection of the device that sends it.
pub open spec fn in_pair(trace: Seq<WireStep>, i: int) -> bool {
    if trace[i] is Select {
        &&& i + 1 < trace.len()
        &&& trace[i + 1] is Transact
        &&& trace[i + 1].slave() == trace[i].slave()
    } else {
        &&& i >= 1
        &&& trace[i - 1] is Select
        &&& trace[i - 1].slave() == trace[i].slave()
    }
}

/// Whether every step of the trace has its partner beside it, so that no
/// step of another device stands between a selection and the request that
/// it was made for.
pub open spec fn paired(trace: Seq<WireStep>) -> bool {
    forall|i: int| 0 <= i < trace.len() ==> #[trigger] in_pair(trace, i)
}

/// The slave that the last step of the trace left selected.
pub open spec fn selected_after(trace: Seq<WireStep>) -> Option<u8> {
    if trace.len() == 0 {
        None
    } else {
        Some(trace.last().slave())
    }
}

/// The serialisation point of one physical link.
///
/// Whoever holds the exclusive borrow holds the link. Every operation selects
/// a slave and stages exactly one request for it, as one step that nothing
/// can come between.
pub struct ThreadSafeContext {
    slave: Option<u8>,
    trace: Ghost<Seq<WireStep>>,
}

impl ThreadSafeContext {
    #[verifier::type_invariant]
    spec fn consistent(&self) -> bool {
        &&& paired(self.trace@)
        &&& self.slave == selected_after(self.trace@)
    }

    /// The slave that is selected on the link, if any was selected yet.
    pub closed spec fn selected(&self) -> Option<u8> {
        self.slave
    }

    /// The steps that the link was given so far, in the order in which they
    /// reach the wire.
    pub closed spec fn trace(&self) -> Seq<WireStep> {
        self.trace@
    }

    /// Whether `self` is what `before` becomes by one unit for `slave`.
    pub open spec fn follows(&self, before: &Self, slave: u8, request: RequestView) -> bool {
        &&& self.selected() == Some(slave)
        &&& self.trace() == before.trace() + unit_steps(slave, request)
        &&& paired(self.trace())
    }

    /// A link that was given nothing yet.
    pub fn new() -> (link: Self)
        ensures
            link.selected() is None,
            link.trace() == Seq::<WireStep>::empty(),
    {
        ThreadSafeContext { slave: None, trace: Ghost(Seq::empty()) }
    }

    /// The slave that is selected on the link, if any was selected yet.
    pub fn selected_slave(&self) -> (slave: Option<u8>)
        ensures
            slave == self.selected(),
            slave == selected_after(self.trace()),
            paired(self.trace()),
    {
        proof {
            use_type_invariant(self);
        }
        self.slave
    }

    /// Selects `slave` and stages `request` for it. The unit that comes back
    /// is what has to be put on the wire now, before the link is let go.
    pub fn call(&mut self, slave: u8, request: Request) -> (unit: Exchange)
        ensures
            unit.slave == slave,
            unit.request == request,
            final(self).follows(old(self), slave, request@),
    {
        proof {
            use_type_invariant(&*self);
            lemma_paired_extends(self.trace@, slave, request@);
        }
        *self = ThreadSafeContext {
            slave: Some(slave),
            trace: Ghost(self.trace@ + unit_steps(slave, request@)),
        };
        Exchange { slave, request }
    }

    /// Selects `slave` and stages a read of `cnt` coils from `addr` on.
    pub fn read_coils(&mut self, slave: u8, addr: Address, cnt: Quantity) -> (unit: Exchange)
        ensures
            unit.slave == slave,
            unit.request == Request::ReadCoils(addr, cnt),
            final(self).follows(old(self), slave, unit.request@),
    {
        self.call(slave, Request::ReadCoils(addr, cnt))
    }

    /// Selects `slave` and stages a read of `cnt` discrete inputs from `addr`
    /// on.
    pub fn read_discrete_inputs(
        &mut self,
        slave: u8,
        addr: Address,
        cnt: Quantity,
    ) -> (unit: Exchange)
        ensures
            unit.slave == slave,
            unit.request == Request::ReadDiscreteInputs(addr, cnt),
            final(self).follows(old(self), slave, unit.request@),
    {
        self.call(slave, Request::ReadDiscreteInputs(addr, cnt))
    }

    /// Selects `slave` and stages a read of `cnt` holding registers from
    /// `addr` on.
    pub fn read_holding_registers(
        &mut self,
        slave: u8,
        addr: Address,
        cnt: Quantity,
    ) -> (unit: Exchange)
        ensures
            unit.slave == slave,
            unit.request == Request::ReadHoldingRegisters(addr, cnt),
            final(self).follows(old(self), slave, unit.request@),
    {
        self.call(slave, Request::ReadHoldingRegisters(addr, cnt))
    }

    /// Selects `slave` and stages a read of `cnt` input registers from `addr`
    /// on.
    pub fn read_input_registers(
        &mut self,
        slave: u8,
        addr: Address,
        cnt: Quantity,
    ) -> (unit: Exchange)
        ensures
            unit.slave == slave,
            unit.request == Request::ReadInputRegisters(addr, cnt),
            final(self).follows(old(self), slave, unit.request@),
    {
        self.call(slave, Request::ReadInputRegisters(addr, cnt))
    }

    /// Selects `slave` and stages a write of `write_data` from `write_addr`
    /// on, combined with a read of `read_count` holding registers from
    /// `read_addr` on.
    pub fn read_write_multiple_registers(
        &mut self,
        slave: u8,
        read_addr: Address,
        read_count: Quantity,
        write_addr: Address,
        write_data: &[u16],
    ) -> (unit: Exchange)
        ensures
            unit.slave == slave,
            unit.request@ == RequestView::ReadWriteMultipleRegisters(
                read_addr,
                read_count,
                write_addr,
                write_data@,
            ),
            final(self).follows(old(self), slave, unit.request@),
    {
        let data = slice_to_vec(write_data);
        self.call(
            slave,
            Request::ReadWriteMultipleRegisters(read_addr, read_count, write_addr, data),
        )
    }

    /// Selects `slave` and stages a write of one coil.
    pub fn write_single_coil(&mut self, slave: u8, addr: Address, coil: bool) -> (unit: Exchange)
        ensures
            unit.slave == slave,
            unit.request == Request::WriteSingleCoil(addr, coil),
            final(self).follows(old(self), slave, unit.request@),
    {
        self.call(slave, Request::WriteSingleCoil(addr, coil))
    }

    /// Selects `slave` and stages a write of one holding register.
    pub fn write_single_register(
        &mut self,
        slave: u8,
        addr: Address,
        word: u16,
    ) -> (unit: Exchange)
        ensures
            unit.slave == slave,
            unit.request == Request::WriteSingleRegister(addr, word),
            final(self).follows(old(self), slave, unit.request@),
    {
        self.call(slave, Request::WriteSingleRegister(addr, word))
    }

    /// Selects `slave` and stages one write that covers all of `coils`, the
    /// first of them at `addr`.
    pub fn write_multiple_coils(
        &mut self,
        slave: u8,
        addr: Address,
        coils: &[bool],
    ) -> (unit: Exchange)
        ensures
            unit.slave == slave,
            unit.request@ == RequestView::WriteMultipleCoils(addr, coils@),
            final(self).follows(old(self), slave, unit.request@),
    {
        let data = slice_to_vec(coils);
        self.call(slave, Request::WriteMultipleCoils(addr, data))
    }

    /// Selects `slave` and stages one write that covers all of `words`, the
    /// first of them at `addr`.
    pub fn write_multiple_registers(
        &mut self,
        slave: u8,
        addr: Address,
        words: &[u16],
    ) -> (unit: Exchange)
        ensures
            unit.slave == slave,
            unit.request@ == RequestView::WriteMultipleRegisters(addr, words@),
            final(self).follows(old(self), slave, unit.request@),
    {
        let data = slice_to_vec(words);
        self.call(slave, Request::WriteMultipleRegisters(addr, data))
    }

    /// Selects `slave` and stages a masked write of one holding register.
    pub fn masked_write_register(
        &mut self,
        slave: u8,
        addr: Address,
        and_mask: u16,
        or_mask: u16,
    ) -> (unit: Exchange)
        ensures
            unit.slave == slave,
            unit.request == Request::MaskedWriteRegister(addr, and_mask, or_mask),
            final(self).follows(old(self), slave, unit.request@),
    {
        self.call(slave, Request::MaskedWriteRegister(addr, and_mask, or_mask))
    }
}

/// A paired trace stays paired when one more unit is put on the wire, and
/// the slave of that unit is then the selected one.
pub proof fn lemma_paired_extends(trace: Seq<WireStep>, slave: u8, request: RequestView)
    requires
        paired(trace),
    ensures
        paired(trace + unit_steps(slave, request)),
        selected_after(trace + unit_steps(slave, request)) == Some(slave),
{
    let longer = trace + unit_steps(slave, request);
    assert forall|i: int| 0 <= i < longer.len() implies #[trigger] in_pair(longer, i) by {
        if i < trace.len() {
            assert(in_pair(trace, i));
        }
    }
}

/// On a paired trace, the step after the selection of a slave is a request
/// of the device with that address. Where devices with different addresses
/// share the link, the request of one never follows the selection of
/// another.
pub proof fn lemma_select_then_transact(trace: Seq<WireStep>, i: int)
    requires
        paired(trace),
        0 <= i < trace.len(),
        trace[i] is Select,
    ensures
        i + 1 < trace.len(),
        trace[i + 1] is Transact,
        trace[i + 1].slave() == trace[i].slave(),
{
    assert(in_pair(trace, i));
}

/// On a paired trace the selections stand at the even places and the
/// requests at the odd ones.
pub proof fn lemma_paired_alternates(trace: Seq<WireStep>, i: int)
    requires
        paired(trace),
        0 <= i < trace.len(),
    ensures
        trace[i] is Select <==> i % 2 == 0,
    decreases i,
{
    assert(in_pair(trace, i));
    if i >= 1 {
        lemma_paired_alternates(trace, i - 1);
        assert(in_pair(trace, i - 1));
    }
}

/// A paired trace is a run of whole units: it has an even number of steps
/// and does not end on a selection.
pub proof fn lemma_paired_whole(trace: Seq<WireStep>)
    requires
        paired(trace),
    ensures
        trace.len() % 2 == 0,
        trace.len() > 0 ==> trace.last() is Transact,
{
    if trace.len() > 0 {
        let last = trace.len() - 1;
        assert(in_pair(trace, last));
        lemma_paired_alternates(trace, last);
    }
}

} // verus!
