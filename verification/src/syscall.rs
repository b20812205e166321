//! The catalog that names system calls, and the ordered record of the calls a
//! traced process made.

use crate::syscalls::ArgKind;
use crate::table::{names, parse_syscall_table, parse_table, BuildError};
use crate::text::{decimal, push_decimal};
use std::collections::HashMap;
use vstd::prelude::*;

verus! {

/// What is known of a system call: its number, its name and, through the
/// call it is told apart as, how many arguments it declares and what each of
/// them means.
pub struct SyscallDescriptor {
    pub number: u64,
    pub name: String,
    pub call: crate::syscalls::Syscall,
}

/// A descriptor as a mathematical value.
pub struct DescriptorView {
    pub number: u64,
    pub name: Seq<char>,
    pub call: crate::syscalls::Syscall,
}

impl DescriptorView {
    /// The declared number of arguments, from 0 to 6.
    pub open spec fn arity(self) -> nat {
        self.call.spec_arity() as nat
    }

    /// The meaning of each declared argument, in order.
    pub open spec fn kinds(self) -> Seq<ArgKind> {
        self.call.kinds()
    }
}

impl View for SyscallDescriptor {
    type V = DescriptorView;

    open spec fn view(&self) -> DescriptorView {
        DescriptorView { number: self.number, name: self.name@, call: self.call }
    }
}

impl SyscallDescriptor {
    /// The declared number of arguments.
    pub fn arity(&self) -> (n: u8)
        ensures
            n == self@.arity(),
            n <= crate::syscalls::MAX_ARGS,
    {
        self.call.arity()
    }

    /// What the argument at `index` means.
    pub fn arg_kind(&self, index: u8) -> (k: ArgKind)
        requires
            index < self@.arity(),
        ensures
            k == self@.kinds()[index as int],
    {
        self.call.arg_kind(index)
    }

    /// A copy of the descriptor.
    pub fn duplicate(&self) -> (d: SyscallDescriptor)
        ensures
            d@ == self@,
    {
        SyscallDescriptor { number: self.number, name: self.name.clone(), call: self.call }
    }
}

/// The name under which a call with no catalog entry is recorded.
pub open spec fn unknown_name(number: u64) -> Seq<char> {
    "unknown_syscall_"@ + decimal(number as nat)
}

/// The descriptor made up for a call with no catalog entry: it keeps all six
/// register words, so that nothing the call was given is lost.
pub open spec fn unknown_descriptor(number: u64) -> DescriptorView {
    DescriptorView { number, name: unknown_name(number), call: crate::syscalls::Syscall::Other }
}

/// The descriptor of `number` under a table of names. It exists for every
/// number.
pub open spec fn describe(table: Map<u64, Seq<char>>, number: u64) -> DescriptorView {
    if table.contains_key(number) {
        DescriptorView {
            number,
            name: table[number],
            call: crate::syscalls::Syscall::spec_from_name(table[number]),
        }
    } else {
        unknown_descriptor(number)
    }
}

/// How far the record of a call has come.
#[derive(Clone, Copy, Debug, PartialEq, Eq, Structural)]
pub enum Completion {
    /// The call was entered; the tracee has not come back from it yet.
    Pending,
    /// The call came back with this value.
    Returned(i64),
    /// The tracee ended inside the call: there is no return value and there
    /// will be none.
    Partial,
}

/// A copy of a list of words.
pub fn copy_words(words: &Vec<u64>) -> (copy: Vec<u64>)
    ensures
        copy@ == words@,
{
    let mut copy: Vec<u64> = Vec::new();
    let mut i: usize = 0;
    while i < words.len()
        invariant
            0 <= i <= words@.len(),
            copy@ == words@.take(i as int),
        decreases words@.len() - i,
    {
        copy.push(words[i]);
        i = i + 1;
    }
    copy
}

/// One system call of the traced process.
pub struct Syscall {
    index: usize,
    descriptor: SyscallDescriptor,
    args: Vec<u64>,
    completion: Completion,
}

/// A recorded call as a mathematical value.
pub struct SyscallView {
    /// The place of the call in the order of calls, from 0.
    pub index: nat,
    pub descriptor: DescriptorView,
    /// The argument words, as many as the descriptor declares.
    pub args: Seq<u64>,
    pub completion: Completion,
}

impl SyscallView {
    /// The call carries exactly as many argument words as it declares.
    pub open spec fn wf(self) -> bool {
        self.args.len() == self.descriptor.arity()
    }

    /// Both ends of the call were seen.
    pub open spec fn finalized(self) -> bool {
        self.completion is Returned
    }
}

impl View for Syscall {
    type V = SyscallView;

    closed spec fn view(&self) -> SyscallView {
        SyscallView {
            index: self.index as nat,
            descriptor: self.descriptor@,
            args: self.args@,
            completion: self.completion,
        }
    }
}

impl Syscall {
    /// The record of a call that was just entered. Of the argument words
    /// given, those the descriptor declares are kept, in order.
    pub fn open(index: usize, descriptor: SyscallDescriptor, args: Vec<u64>) -> (call: Syscall)
        requires
            args@.len() >= descriptor@.arity(),
        ensures
            call@ == (SyscallView {
                index: index as nat,
                descriptor: descriptor@,
                args: args@.take(descriptor@.arity() as int),
                completion: Completion::Pending,
            }),
            call@.wf(),
    {
        let mut kept = args;
        kept.truncate(descriptor.arity() as usize);
        Syscall { index, descriptor, args: kept, completion: Completion::Pending }
    }

    /// The place of the call in the order of calls, from 0.
    pub fn index(&self) -> (i: usize)
        ensures
            i == self@.index,
    {
        self.index
    }

    /// The number of the call.
    pub fn number(&self) -> (n: u64)
        ensures
            n == self@.descriptor.number,
    {
        self.descriptor.number
    }

    /// The name of the call.
    pub fn name(&self) -> (s: &str)
        ensures
            s@ == self@.descriptor.name,
    {
        self.descriptor.name.as_str()
    }

    /// What is known of the call.
    pub fn descriptor(&self) -> (d: &SyscallDescriptor)
        ensures
            d@ == self@.descriptor,
    {
        &self.descriptor
    }

    /// The argument words.
    pub fn args(&self) -> (a: &Vec<u64>)
        ensures
            a@ == self@.args,
    {
        &self.args
    }

    /// How far the record has come.
    pub fn completion(&self) -> (c: Completion)
        ensures
            c == self@.completion,
    {
        self.completion
    }

    /// The value the call came back with, if it came back.
    pub fn return_value(&self) -> (r: Option<i64>)
        ensures
            r == match self@.completion {
                Completion::Returned(v) => Some(v),
                _ => None,
            },
    {
        match self.completion {
            Completion::Returned(v) => Some(v),
            _ => None,
        }
    }

    /// Whether the tracee ended inside the call.
    pub fn is_partial(&self) -> (b: bool)
        ensures
            b == (self@.completion is Partial),
    {
        match self.completion {
            Completion::Partial => true,
            _ => false,
        }
    }

    /// A copy of the record.
    pub fn duplicate(&self) -> (call: Syscall)
        ensures
            call@ == self@,
    {
        Syscall {
            index: self.index,
            descriptor: self.descriptor.duplicate(),
            args: copy_words(&self.args),
            completion: self.completion,
        }
    }
}

/// A list of recorded calls as mathematical values.
pub open spec fn views(events: Seq<Syscall>) -> Seq<SyscallView> {
    Seq::new(events.len(), |i: int| events[i]@)
}

/// The recorded calls in the order in which they were made.
pub struct EventRecorder {
    events: Vec<Syscall>,
}

impl View for EventRecorder {
    type V = Seq<SyscallView>;

    closed spec fn view(&self) -> Seq<SyscallView> {
        views(self.events@)
    }
}

impl EventRecorder {
    /// A recorder that holds nothing yet.
    pub fn new() -> (r: EventRecorder)
        ensures
            r@ == Seq::<SyscallView>::empty(),
    {
        EventRecorder { events: Vec::new() }
    }

    /// Adds `event` behind everything recorded so far, as it is.
    pub fn append(&mut self, event: Syscall)
        ensures
            final(self)@ == old(self)@.push(event@),
    {
        self.events.push(event);
    }

    /// How many calls are recorded.
    pub fn len(&self) -> (n: usize)
        ensures
            n == self@.len(),
    {
        self.events.len()
    }

    /// The recorded calls, oldest first.
    pub fn snapshot(&self) -> (events: &Vec<Syscall>)
        ensures
            views(events@) == self@,
    {
        &self.events
    }

    /// Replaces the state of the newest record.
    fn complete_last(&mut self, completion: Completion)
        requires
            old(self)@.len() > 0,
        ensures
            final(self)@ == old(self)@.update(
                old(self)@.len() - 1,
                SyscallView { completion, ..old(self)@.last() },
            ),
    {
        let mut last = self.events.pop().unwrap();
        last.completion = completion;
        self.events.push(last);
    }
}

/// How many of the calls were seen at both ends.
pub open spec fn finalized_count(events: Seq<SyscallView>) -> nat
    decreases events.len(),
{
    if events.len() == 0 {
        0
    } else {
        finalized_count(events.drop_last()) + if events.last().finalized() {
            1nat
        } else {
            0nat
        }
    }
}

/// The catalog of system calls: the names the platform's table gives to call
/// numbers. It is built once and only read from then on.
pub struct SyscallCatalog {
    table: HashMap<u64, String>,
}

impl View for SyscallCatalog {
    type V = Map<u64, Seq<char>>;

    closed spec fn view(&self) -> Map<u64, Seq<char>> {
        names(self.table)
    }
}

impl SyscallCatalog {
    /// A catalog that knows no name.
    pub fn new() -> (c: SyscallCatalog)
        ensures
            c@ == Map::<u64, Seq<char>>::empty(),
    {
        let c = SyscallCatalog { table: HashMap::new() };
        assert(c@ =~= Map::<u64, Seq<char>>::empty());
        c
    }

    /// The catalog of the names that `text`, the text of the platform's
    /// table of call numbers, gives. There is none where the table is
    /// malformed.
    pub fn build(text: &str) -> (r: Result<SyscallCatalog, BuildError>)
        ensures
            match r {
                Ok(c) => parse_table(text@) == Ok::<Map<u64, Seq<char>>, BuildError>(c@),
                Err(e) => parse_table(text@) == Err::<Map<u64, Seq<char>>, BuildError>(e),
            },
    {
        match parse_syscall_table(text) {
            Ok(table) => Ok(SyscallCatalog { table }),
            Err(e) => Err(e),
        }
    }

    /// Enters `name` as the name of call `number`, in place of any name the
    /// number had.
    pub fn define(&mut self, number: u64, name: String)
        ensures
            final(self)@ == old(self)@.insert(number, name@),
    {
        broadcast use vstd::std_specs::hash::group_hash_axioms;

        self.table.insert(number, name);
        assert(self@ =~= old(self)@.insert(number, name@));
    }

    /// The descriptor of call `number`. Every number has one: a number the
    /// catalog does not know is described as `unknown_syscall_` followed by
    /// the number, with six arguments of unknown meaning.
    pub fn lookup(&self, number: u64) -> (d: SyscallDescriptor)
        ensures
            d@ == describe(self@, number),
    {
        broadcast use vstd::std_specs::hash::group_hash_axioms;

        match self.table.get(&number) {
            Some(name) => {
                let call = crate::syscalls::Syscall::from_name(name.as_str());
                SyscallDescriptor { number, name: name.clone(), call }
            },
            None => {
                let mut name = String::from_str("unknown_syscall_");
                push_decimal(&mut name, number);
                SyscallDescriptor { number, name, call: crate::syscalls::Syscall::Other }
            },
        }
    }
}

/// The catalog and the record as mathematical values.
pub struct ManagerView {
    /// The names the catalog knows, by call number.
    pub table: Map<u64, Seq<char>>,
    /// The recorded calls, oldest first.
    pub events: Seq<SyscallView>,
}

impl ManagerView {
    /// Each recorded call stands at the place its index says, is described as
    /// the catalog describes its number, and carries exactly as many argument
    /// words as that description declares.
    pub open spec fn wf(self) -> bool {
        forall|i: int|
            0 <= i < self.events.len() ==> {
                &&& (#[trigger] self.events[i]).index == i
                &&& self.events[i].descriptor == describe(
                    self.table,
                    self.events[i].descriptor.number,
                )
                &&& self.events[i].wf()
            }
    }

    /// The call `number` as it is opened at its entry, to stand behind the
    /// calls recorded so far: described as the catalog describes the number,
    /// with the first words of `args`, as many as that description declares,
    /// and with no return value yet.
    pub open spec fn opened(self, number: u64, args: Seq<u64>) -> SyscallView {
        SyscallView {
            index: self.events.len(),
            descriptor: describe(self.table, number),
            args: args.take(describe(self.table, number).arity() as int),
            completion: Completion::Pending,
        }
    }

    /// The call can be put behind the calls recorded so far: it is numbered
    /// as the next one, described as the catalog describes its number, and
    /// carries exactly as many argument words as it declares.
    pub open spec fn fits(self, call: SyscallView) -> bool {
        &&& call.index == self.events.len()
        &&& call.descriptor == describe(self.table, call.descriptor.number)
        &&& call.wf()
    }

    /// The record with `call` put behind the others, in the state
    /// `completion`.
    pub open spec fn closed(self, call: SyscallView, completion: Completion) -> ManagerView {
        ManagerView {
            table: self.table,
            events: self.events.push(SyscallView { completion, ..call }),
        }
    }

    /// The record with one more call entered: `number` with the first words
    /// of `args`, as many as the catalog declares for it.
    pub open spec fn with_call(self, number: u64, args: Seq<u64>) -> ManagerView {
        ManagerView { table: self.table, events: self.events.push(self.opened(number, args)) }
    }

    /// The record with the state of its newest call replaced.
    pub open spec fn with_last(self, completion: Completion) -> ManagerView {
        ManagerView {
            table: self.table,
            events: self.events.update(
                self.events.len() - 1,
                SyscallView { completion, ..self.events.last() },
            ),
        }
    }

    /// The newest recorded call has been entered and has not come back.
    pub open spec fn last_pending(self) -> bool {
        self.events.len() > 0 && self.events.last().completion is Pending
    }

    /// The record once the tracee has ended: a call it was still inside is
    /// marked partial and kept.
    pub open spec fn flushed(self) -> ManagerView {
        if self.last_pending() {
            self.with_last(Completion::Partial)
        } else {
            self
        }
    }
}

/// Holds the catalog of call names and the record of the calls made.
pub struct SyscallManager {
    syscalls: EventRecorder,
    catalog: SyscallCatalog,
}

impl View for SyscallManager {
    type V = ManagerView;

    closed spec fn view(&self) -> ManagerView {
        ManagerView { table: self.catalog@, events: self.syscalls@ }
    }
}

impl Default for SyscallManager {
    fn default() -> (m: SyscallManager)
        ensures
            m@.table == Map::<u64, Seq<char>>::empty(),
            m@.events == Seq::<SyscallView>::empty(),
            m.wf(),
    {
        SyscallManager { syscalls: EventRecorder::new(), catalog: SyscallCatalog::new() }
    }
}

impl SyscallManager {
    /// See [`ManagerView::wf`].
    pub open spec fn wf(&self) -> bool {
        self@.wf()
    }

    /// A manager whose catalog knows no name and whose record is empty.
    pub fn new() -> (m: SyscallManager)
        ensures
            m@.table == Map::<u64, Seq<char>>::empty(),
            m@.events == Seq::<SyscallView>::empty(),
            m.wf(),
    {
        SyscallManager { syscalls: EventRecorder::new(), catalog: SyscallCatalog::new() }
    }

    /// A manager whose catalog holds the names that `text`, the text of the
    /// platform's table of call numbers, gives, and whose record is empty.
    /// There is none where the table is malformed.
    pub fn build(text: &str) -> (r: Result<SyscallManager, BuildError>)
        ensures
            match r {
                Ok(m) => parse_table(text@) == Ok::<Map<u64, Seq<char>>, BuildError>(m@.table)
                    && m@.events == Seq::<SyscallView>::empty() && m.wf(),
                Err(e) => parse_table(text@) == Err::<Map<u64, Seq<char>>, BuildError>(e),
            },
    {
        match SyscallCatalog::build(text) {
            Ok(catalog) => Ok(SyscallManager::with_catalog(catalog)),
            Err(e) => Err(e),
        }
    }

    /// A manager with the given catalog and an empty record.
    pub fn with_catalog(catalog: SyscallCatalog) -> (m: SyscallManager)
        ensures
            m@.table == catalog@,
            m@.events == Seq::<SyscallView>::empty(),
            m.wf(),
    {
        SyscallManager { syscalls: EventRecorder::new(), catalog }
    }

    /// The catalog.
    pub fn catalog(&self) -> (c: &SyscallCatalog)
        ensures
            c@ == self@.table,
    {
        &self.catalog
    }

    /// A manager built from what reading the platform's table gave: its text,
    /// or nothing where the table could not be read. A table that could not
    /// be read gives no manager, and is told apart from a malformed one.
    pub fn from_source(source: Option<&str>) -> (r: Result<SyscallManager, BuildError>)
        ensures
            match source {
                None => r matches Err(e) && e == BuildError::Unreadable,
                Some(text) => match r {
                    Ok(m) => parse_table(text@) == Ok::<Map<u64, Seq<char>>, BuildError>(
                        m@.table,
                    ) && m@.events == Seq::<SyscallView>::empty() && m.wf(),
                    Err(e) => parse_table(text@) == Err::<Map<u64, Seq<char>>, BuildError>(e),
                },
            },
    {
        match source {
            None => Err(BuildError::Unreadable),
            Some(text) => SyscallManager::build(text),
        }
    }

    /// Enters `name` in the catalog as the name of call `number`, in place of
    /// any name the number had.
    pub fn define(&mut self, number: u64, name: String)
        requires
            old(self)@.events.len() == 0,
        ensures
            final(self)@.table == old(self)@.table.insert(number, name@),
            final(self)@.events == old(self)@.events,
            final(self).wf(),
    {
        self.catalog.define(number, name);
    }

    /// The descriptor of call `number`, as the catalog gives it. Every number
    /// has one.
    pub fn lookup(&self, number: u64) -> (d: SyscallDescriptor)
        ensures
            d@ == describe(self@.table, number),
    {
        self.catalog.lookup(number)
    }

    /// Opens the record of call `syscall_num`, entered with the argument
    /// words `args`, without putting it in the record of calls: it is to be
    /// put there once the call is over. The record keeps the first words of
    /// `args`, as many as the call declares, and has no return value yet.
    pub fn open_syscall(&self, syscall_num: u64, args: Vec<u64>) -> (call: Syscall)
        requires
            args@.len() >= describe(self@.table, syscall_num).arity(),
        ensures
            call@ == self@.opened(syscall_num, args@),
            self@.fits(call@),
    {
        let descriptor = self.lookup(syscall_num);
        let index: usize = self.syscalls.len();
        Syscall::open(index, descriptor, args)
    }

    /// Puts `call`, opened for this record, behind the calls recorded so far,
    /// in the state `completion`: with its return value, or as the partial
    /// record of a call the tracee did not come back from.
    pub fn close_syscall(&mut self, call: Syscall, completion: Completion)
        requires
            old(self).wf(),
            old(self)@.fits(call@),
        ensures
            final(self)@ == old(self)@.closed(call@, completion),
            final(self).wf(),
    {
        let mut call = call;
        call.completion = completion;
        self.syscalls.append(call);
    }

    /// Records that call `syscall_num` was entered with the argument words
    /// `args`. The record keeps the first words of `args`, as many as the
    /// call declares, and has no return value yet.
    pub fn add_syscall(&mut self, syscall_num: u64, args: Vec<u64>)
        requires
            old(self).wf(),
            args@.len() >= describe(old(self)@.table, syscall_num).arity(),
        ensures
            final(self)@ == old(self)@.with_call(syscall_num, args@),
            final(self).wf(),
    {
        let call = self.open_syscall(syscall_num, args);
        self.syscalls.append(call);
    }

    /// Records that call `syscall_num` was entered with the six register
    /// words `words` on hand. Whatever the number and whatever the catalog
    /// knows of it, the call is recorded: the record keeps the first of the
    /// six words, as many as the call declares.
    pub fn add_raw_syscall(&mut self, syscall_num: u64, words: [u64; 6])
        requires
            old(self).wf(),
        ensures
            final(self)@ == old(self)@.with_call(syscall_num, words@),
            final(self)@.events.len() == old(self)@.events.len() + 1,
            final(self).wf(),
    {
        let mut args: Vec<u64> = Vec::new();
        let mut i: usize = 0;
        while i < 6
            invariant
                0 <= i <= 6,
                words@.len() == 6,
                args@ == words@.take(i as int),
            decreases 6 - i,
        {
            args.push(words[i]);
            assert(args@ =~= words@.take(i + 1));
            i = i + 1;
        }
        assert(args@ =~= words@);
        proof {
            crate::syscalls::lemma_arity_at_most_six(describe(self@.table, syscall_num).call);
        }
        self.add_syscall(syscall_num, args);
    }

    /// Records that the newest call came back with `ret`.
    pub fn finish_syscall(&mut self, ret: i64)
        requires
            old(self).wf(),
            old(self)@.last_pending(),
        ensures
            final(self)@ == old(self)@.with_last(Completion::Returned(ret)),
            final(self).wf(),
    {
        self.syscalls.complete_last(Completion::Returned(ret));
    }

    /// Closes the record once the tracee has ended: a call it was still
    /// inside is marked partial and kept.
    pub fn flush(&mut self)
        requires
            old(self).wf(),
        ensures
            final(self)@ == old(self)@.flushed(),
            final(self).wf(),
    {
        let n: usize = self.syscalls.len();
        if n > 0 {
            let pending = match self.syscalls.events[n - 1].completion {
                Completion::Pending => true,
                _ => false,
            };
            if pending {
                self.syscalls.complete_last(Completion::Partial);
            }
        }
    }

    /// How many calls are recorded.
    pub fn len(&self) -> (n: usize)
        ensures
            n == self@.events.len(),
    {
        self.syscalls.len()
    }

    /// The recorded calls, oldest first.
    pub fn snapshot(&self) -> (events: &Vec<Syscall>)
        ensures
            views(events@) == self@.events,
    {
        self.syscalls.snapshot()
    }
}

/// A call the catalog does not know is recorded under `unknown_syscall_`
/// followed by its number, with six arguments of unknown meaning.
pub proof fn lemma_unknown_call(table: Map<u64, Seq<char>>, number: u64)
    requires
        !table.contains_key(number),
    ensures
        describe(table, number).number == number,
        describe(table, number).name == "unknown_syscall_"@ + decimal(number as nat),
        describe(table, number).arity() == 6,
        describe(table, number).kinds() == Seq::new(6, |i: int| ArgKind::Raw),
{
}

/// However many argument words were on hand when a call was entered, its
/// record holds exactly as many as the call declares, and at most six.
pub proof fn lemma_args_match_arity(manager: ManagerView, number: u64, args: Seq<u64>)
    requires
        manager.wf(),
        args.len() >= describe(manager.table, number).arity(),
    ensures
        manager.with_call(number, args).wf(),
        manager.with_call(number, args).events.last().args.len() == describe(
            manager.table,
            number,
        ).arity(),
        describe(manager.table, number).arity() <= 6,
{
}

/// With six register words on hand every call can be recorded, whatever its
/// number and whatever the catalog knows of it: the record grows by one call,
/// described as the catalog describes the number, and a number the catalog
/// does not know is recorded under `unknown_syscall_` followed by the number,
/// with all six words.
pub proof fn lemma_any_call_is_recorded(manager: ManagerView, number: u64, words: Seq<u64>)
    requires
        manager.wf(),
        words.len() == 6,
    ensures
        manager.with_call(number, words).wf(),
        manager.with_call(number, words).events.len() == manager.events.len() + 1,
        manager.with_call(number, words).events.last().descriptor == describe(
            manager.table,
            number,
        ),
        manager.table.contains_key(number) ==> manager.with_call(
            number,
            words,
        ).events.last().descriptor.name == manager.table[number],
        !manager.table.contains_key(number) ==> manager.with_call(
            number,
            words,
        ).events.last().descriptor.name == unknown_name(number) && manager.with_call(
            number,
            words,
        ).events.last().args == words,
{
    crate::syscalls::lemma_arity_at_most_six(describe(manager.table, number).call);
    if !manager.table.contains_key(number) {
        assert(words.take(6) =~= words);
    }
}

/// A call opened for a record fits it, and putting a call that fits behind
/// the others keeps the record well formed and makes it one call longer,
/// with the calls that were there as they were.
pub proof fn lemma_open_then_close(
    manager: ManagerView,
    number: u64,
    args: Seq<u64>,
    call: SyscallView,
    completion: Completion,
)
    requires
        manager.wf(),
    ensures
        args.len() >= describe(manager.table, number).arity() ==> manager.fits(
            manager.opened(number, args),
        ),
        manager.opened(number, args).descriptor == describe(manager.table, number),
        manager.fits(call) ==> manager.closed(call, completion).wf(),
        manager.closed(call, completion).events.len() == manager.events.len() + 1,
        manager.closed(call, completion).events.last() == (SyscallView { completion, ..call }),
        forall|i: int|
            0 <= i < manager.events.len() ==> manager.closed(call, completion).events[i]
                == #[trigger] manager.events[i],
{
}

/// Marking a pending call, or replacing the state of the newest call, keeps
/// the record well formed.
pub proof fn lemma_manager_updates_keep_wf(manager: ManagerView, completion: Completion)
    requires
        manager.wf(),
    ensures
        manager.flushed().wf(),
        manager.events.len() > 0 ==> manager.with_last(completion).wf(),
{
}

/// Calls that were all seen at both ends are counted one for one.
pub proof fn lemma_count_of_finalized(events: Seq<SyscallView>)
    requires
        forall|i: int| 0 <= i < events.len() ==> (#[trigger] events[i]).finalized(),
    ensures
        finalized_count(events) == events.len(),
    decreases events.len(),
{
    if events.len() > 0 {
        lemma_count_of_finalized(events.drop_last());
    }
}

/// Where only the newest call may lack its exit, the calls seen at both ends
/// are all of them, or all but that one.
pub proof fn lemma_count_but_newest(events: Seq<SyscallView>)
    requires
        events.len() > 0,
        forall|i: int| 0 <= i < events.len() - 1 ==> (#[trigger] events[i]).finalized(),
    ensures
        finalized_count(events) == if events.last().finalized() {
            events.len()
        } else {
            (events.len() - 1) as nat
        },
{
    lemma_count_of_finalized(events.drop_last());
}

} // verus!
