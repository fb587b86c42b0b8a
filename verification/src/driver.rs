//! Driver Registry: a statically-known list of peripheral drivers, each
//! reporting a compatibility name and an initialization routine.
//!
//! Registration order is initialization order. `init_drivers` runs each
//! driver's init routine in that order and stops at the first failure,
//! surfacing which driver failed and why; `enumerate` produces the
//! compatibility names in the same order for diagnostic reporting.

use vstd::prelude::*;

verus! {

/// Why a driver's init routine failed.
#[derive(Copy, Clone, PartialEq, Eq, Structural, Debug)]
pub enum DriverError {
    /// The driver could not bring its peripheral up.
    InitFailed,
}

/// A peripheral driver: a stable compatibility name plus an initialization
/// routine. Implemented by every driver the registry can hold.
pub trait DeviceDriver: Sized {
    /// The driver's compatibility name.
    spec fn compat_name(&self) -> Seq<char>;

    /// Whether the init routine will succeed from the driver's current state.
    spec fn init_succeeds(&self) -> bool;

    /// Whether the driver has been brought up.
    spec fn initialized(&self) -> bool;

    /// The stable, human-readable compatibility name.
    fn compatible(&self) -> (r: String)
        ensures
            r@ == self.compat_name(),
    ;

    /// Bring the peripheral up. Succeeds exactly when the driver's state
    /// allows it; the name and the prospects of a retry are left as they
    /// were.
    fn init(&mut self) -> (r: Result<(), DriverError>)
        ensures
            r is Ok <==> old(self).init_succeeds(),
            final(self).initialized() == (r is Ok),
            final(self).compat_name() == old(self).compat_name(),
            final(self).init_succeeds() == old(self).init_succeeds(),
    ;
}

/// The registry's report of a failed bring-up: which driver failed and why.
pub struct DriverInitFailure {
    /// The failing driver's position in registration order.
    pub index: usize,
    /// The failing driver's compatibility name.
    pub name: String,
    /// The failure the driver reported.
    pub error: DriverError,
}

/// Every driver in the sequence has an init routine that will succeed.
pub open spec fn all_init_succeed<D: DeviceDriver>(s: Seq<D>) -> bool {
    forall|j: int| 0 <= j < s.len() ==> (#[trigger] s[j]).init_succeeds()
}

/// A fixed collection of drivers; insertion order is registration order is
/// initialization order.
pub struct DriverManager<D: DeviceDriver> {
    drivers: Vec<D>,
}

impl<D: DeviceDriver> DriverManager<D> {
    /// The registered drivers, in registration order.
    pub closed spec fn drivers_view(self) -> Seq<D> {
        self.drivers@
    }

    /// An empty registry.
    pub fn new() -> (r: Self)
        ensures
            r.drivers_view() == Seq::<D>::empty(),
    {
        DriverManager { drivers: Vec::new() }
    }

    /// Append a driver; it will be initialized after every driver already
    /// registered.
    pub fn register(&mut self, d: D)
        ensures
            final(self).drivers_view() == old(self).drivers_view().push(d),
    {
        self.drivers.push(d);
    }

    /// How many drivers are registered.
    pub fn len(&self) -> (r: usize)
        ensures
            r == self.drivers_view().len(),
    {
        self.drivers.len()
    }

    /// The driver at the given registration position.
    pub fn driver_at(&self, i: usize) -> (r: &D)
        requires
            i < self.drivers_view().len(),
        ensures
            *r == self.drivers_view()[i as int],
    {
        &self.drivers[i]
    }

    /// The registered compatibility names, in registration order.
    pub fn enumerate(&self) -> (names: Vec<String>)
        ensures
            names@.len() == self.drivers_view().len(),
            forall|j: int|
                0 <= j < names@.len() ==> (#[trigger] names@[j])@
                    == self.drivers_view()[j].compat_name(),
    {
        let mut names: Vec<String> = Vec::new();
        let n = self.drivers.len();
        let mut i: usize = 0;
        while i < n
            invariant
                i <= n,
                n == self.drivers@.len(),
                names@.len() == i,
                forall|j: int|
                    0 <= j < i ==> (#[trigger] names@[j])@ == self.drivers@[j].compat_name(),
            decreases n - i,
        {
            let name = self.drivers[i].compatible();
            names.push(name);
            i = i + 1;
        }
        names
    }

    /// Execute each driver's init routine in registration order, stopping at
    /// the first failure. On failure, the drivers before the failing one are
    /// initialized, the failing one is not, the drivers after it were never
    /// executed (they are exactly as registered), and the report names the
    /// failing driver and its position.
    pub fn init_drivers(&mut self) -> (r: Result<(), DriverInitFailure>)
        ensures
            final(self).drivers_view().len() == old(self).drivers_view().len(),
            r is Ok <==> all_init_succeed(old(self).drivers_view()),
            r is Ok ==> forall|j: int|
                0 <= j < final(self).drivers_view().len()
                    ==> (#[trigger] final(self).drivers_view()[j]).initialized()
                    && final(self).drivers_view()[j].compat_name()
                    == old(self).drivers_view()[j].compat_name(),
            r is Err ==> ({
                let k = r->Err_0.index as int;
                &&& 0 <= k < old(self).drivers_view().len()
                &&& !old(self).drivers_view()[k].init_succeeds()
                &&& forall|j: int|
                    0 <= j < k ==> (#[trigger] old(self).drivers_view()[j]).init_succeeds()
                &&& forall|j: int|
                    0 <= j < k ==> (#[trigger] final(self).drivers_view()[j]).initialized()
                &&& !final(self).drivers_view()[k].initialized()
                &&& forall|j: int|
                    k < j < final(self).drivers_view().len()
                        ==> #[trigger] final(self).drivers_view()[j]
                        == old(self).drivers_view()[j]
                &&& r->Err_0.name@ == old(self).drivers_view()[k].compat_name()
                &&& r->Err_0.error == DriverError::InitFailed
            }),
    {
        let ghost orig: Seq<D> = self.drivers@;
        let mut pending: Vec<D> = Vec::new();
        core::mem::swap(&mut pending, &mut self.drivers);
        let total = pending.len();
        let mut done: Vec<D> = Vec::new();
        let mut idx: usize = 0;
        while pending.len() > 0
            invariant
                orig == old(self).drivers_view(),
                orig.len() == total,
                done@.len() == idx,
                idx + pending@.len() == orig.len(),
                pending@ == orig.skip(idx as int),
                forall|j: int| 0 <= j < idx ==> (#[trigger] orig[j]).init_succeeds(),
                forall|j: int|
                    0 <= j < idx ==> (#[trigger] done@[j]).initialized() && done@[j].compat_name()
                        == orig[j].compat_name(),
            decreases pending@.len(),
        {
            let mut d = pending.remove(0);
            proof {
                assert(orig.skip(idx as int)[0] == orig[idx as int]);
                assert(orig.skip(idx as int).remove(0) =~= orig.skip(idx as int + 1));
            }
            let res = d.init();
            match res {
                Result::Ok(()) => {
                    done.push(d);
                    idx = idx + 1;
                },
                Result::Err(e) => {
                    let name = d.compatible();
                    let ghost k = idx as int;
                    done.push(d);
                    let ghost fail_done: Seq<D> = done@;
                    while pending.len() > 0
                        invariant
                            orig == old(self).drivers_view(),
                            orig.len() == total,
                            fail_done.len() == k + 1,
                            k + 1 <= done@.len(),
                            0 <= k < orig.len(),
                            k == idx,
                            done@.len() + pending@.len() == orig.len(),
                            pending@ == orig.skip(done@.len() as int),
                            done@ == fail_done + orig.subrange(k + 1, done@.len() as int),
                            forall|j: int|
                                0 <= j < k ==> (#[trigger] fail_done[j]).initialized()
                                    && fail_done[j].compat_name() == orig[j].compat_name()
                                    && orig[j].init_succeeds(),
                            !fail_done[k].initialized(),
                            fail_done[k].compat_name() == orig[k].compat_name(),
                            !orig[k].init_succeeds(),
                            name@ == orig[k].compat_name(),
                        decreases pending@.len(),
                    {
                        let ghost m = done@.len() as int;
                        let d2 = pending.remove(0);
                        proof {
                            assert(orig.skip(m)[0] == orig[m]);
                            assert(orig.skip(m).remove(0) =~= orig.skip(m + 1));
                        }
                        done.push(d2);
                        proof {
                            assert(done@ =~= fail_done + orig.subrange(k + 1, m + 1));
                        }
                    }
                    self.drivers = done;
                    proof {
                        assert(self.drivers@ == fail_done + orig.subrange(
                            k + 1,
                            self.drivers@.len() as int,
                        ));
                        assert(forall|j: int|
                            k < j < self.drivers@.len() ==> #[trigger] self.drivers@[j] == orig[j]);
                    }
                    return Err(DriverInitFailure { index: idx, name, error: e });
                },
            }
        }
        self.drivers = done;
        Ok(())
    }
}

/// A configurable driver for exercising the registry off-target: its init
/// routine succeeds or fails as constructed, standing in for a peripheral
/// that cannot be brought up.
pub struct ProbeDriver {
    name: String,
    works: bool,
    up: bool,
}

impl ProbeDriver {
    /// A driver under the given compatibility name whose init routine will
    /// succeed exactly when `works` holds.
    pub fn new(name: String, works: bool) -> (r: Self)
        ensures
            r.compat_name() == name@,
            r.init_succeeds() == works,
            !r.initialized(),
    {
        ProbeDriver { name, works, up: false }
    }

    /// Whether this driver has been brought up.
    pub fn is_up(&self) -> (r: bool)
        ensures
            r == self.initialized(),
    {
        self.up
    }
}

impl DeviceDriver for ProbeDriver {
    closed spec fn compat_name(&self) -> Seq<char> {
        self.name@
    }

    closed spec fn init_succeeds(&self) -> bool {
        self.works
    }

    closed spec fn initialized(&self) -> bool {
        self.up
    }

    fn compatible(&self) -> (r: String) {
        self.name.clone()
    }

    fn init(&mut self) -> (r: Result<(), DriverError>) {
        if self.works {
            self.up = true;
            Ok(())
        } else {
            self.up = false;
            Err(DriverError::InitFailed)
        }
    }
}

} // verus!
