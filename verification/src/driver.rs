use vstd::prelude::*;
use crate::style::Style;

verus! {

/// One state change requested from the terminal: set a color channel to a
/// palette constant, turn an attribute on (or, for underline, explicitly on
/// or off), or reset the terminal to its default state.
///
/// Most attributes can only be turned on; the only way back is `Reset`.
#[derive(Debug, Copy, Clone, PartialEq, Eq, Structural)]
pub enum DriverCmd {
    /// Set the foreground color to the given palette constant.
    Fg(u32),
    /// Set the background color to the given palette constant.
    Bg(u32),
    /// Turn bold on.
    Bold,
    /// Turn dim on.
    Dim,
    /// Turn underline explicitly on (`true`) or explicitly off (`false`).
    Underline(bool),
    /// Turn blink on.
    Blink,
    /// Turn reverse video on.
    Reverse,
    /// Turn secure (hidden text) mode on.
    Secure,
    /// Reset every color and attribute to the terminal's default state.
    Reset,
}

/// The one error this crate knows: a terminal state operation failed, either
/// because there is no usable terminal or because the backend rejected a
/// command. Styling is cosmetic, so callers are free to ignore it; the
/// scoped-execution machinery does.
#[derive(Debug, Copy, Clone, PartialEq, Eq, Structural)]
pub struct DriverError;

/// A sink for [`DriverCmd`]s: whatever actually changes terminal state.
///
/// The crate itself only decides *which* commands to send and in what order;
/// a driver carries them out. A real terminal backend lives outside this
/// crate and is handed commands by the embedding program; tests use
/// [`RecordingDriver`], which carries out nothing and remembers everything.
///
/// `issued` and `outcomes` abstract the two things every driver must track
/// for the contracts here to compose: the full sequence of commands it was
/// handed, oldest first, and whether the backend accepted each one. That is
/// what lets `apply` and `revert_to` promise the whole failure policy:
/// success exactly when every handed command was accepted, and nothing
/// handed after the first refusal.
pub trait Driver: Sized {
    /// The commands handed to this driver so far, oldest first. A driver
    /// outside this crate that keeps no such record may leave the default,
    /// the constant empty sequence — but under it `run`'s contract is
    /// unsatisfiable (a sequence never equals itself plus one element), so
    /// reasoning about such a driver would be vacuous. Nothing in this crate
    /// is proved about drivers it does not itself define; the proofs here
    /// hold for drivers whose records are honest, such as
    /// [`RecordingDriver`].
    open spec fn issued(&self) -> Seq<DriverCmd> {
        Seq::<DriverCmd>::empty()
    }

    /// Whether the backend accepted each command in [`Driver::issued`], in
    /// the same order. The same remark as for `issued` applies to a driver
    /// that keeps the default.
    open spec fn outcomes(&self) -> Seq<bool> {
        Seq::<bool>::empty()
    }

    /// Hands one command to the backend. Returns `false` when the backend
    /// could not carry it out; the command still counts as issued, and the
    /// report is recorded alongside it.
    fn run(&mut self, cmd: DriverCmd) -> (ok: bool)
        ensures
            final(self).issued() == old(self).issued().push(cmd),
            final(self).outcomes() == old(self).outcomes().push(ok),
    ;
}

/// The outcome record of `n` commands that were all accepted.
pub open spec fn accepted(n: nat) -> Seq<bool> {
    Seq::new(n, |i: int| true)
}

/// A driver that performs no terminal work: it records every command it is
/// handed and reports success for the first `accept` commands (all of them
/// when `accept` is `None`). The mock driver for tests: it makes command
/// sequences observable and lets a test force a backend failure at a chosen
/// point.
pub struct RecordingDriver {
    /// Every command handed to this driver, oldest first.
    pub log: Vec<DriverCmd>,
    /// For each command in `log`, whether this driver reported success.
    pub oks: Vec<bool>,
    /// How many commands to accept before reporting failure; `None` accepts
    /// every command.
    pub accept: Option<usize>,
}

impl RecordingDriver {
    /// A recording driver that reports success for every command.
    pub fn new() -> (d: RecordingDriver)
        ensures
            d.issued() == Seq::<DriverCmd>::empty(),
            d.outcomes() == Seq::<bool>::empty(),
            d.accept is None,
    {
        RecordingDriver { log: Vec::new(), oks: Vec::new(), accept: None }
    }

    /// A recording driver that reports success for the first `n` commands
    /// and failure from then on.
    pub fn failing_after(n: usize) -> (d: RecordingDriver)
        ensures
            d.issued() == Seq::<DriverCmd>::empty(),
            d.outcomes() == Seq::<bool>::empty(),
            d.accept == Some(n),
    {
        RecordingDriver { log: Vec::new(), oks: Vec::new(), accept: Some(n) }
    }
}

impl Driver for RecordingDriver {
    open spec fn issued(&self) -> Seq<DriverCmd> {
        self.log@
    }

    open spec fn outcomes(&self) -> Seq<bool> {
        self.oks@
    }

    fn run(&mut self, cmd: DriverCmd) -> (ok: bool)
        ensures
            final(self).issued() == old(self).issued().push(cmd),
            final(self).outcomes() == old(self).outcomes().push(ok),
            final(self).accept == old(self).accept,
            ok == (old(self).accept is None || old(self).issued().len() < old(self).accept->0),
    {
        self.log.push(cmd);
        let ok = match self.accept {
            None => true,
            Some(n) => self.log.len() <= n,
        };
        self.oks.push(ok);
        ok
    }
}

/// Hands `cmds` to the driver one at a time, in order, stopping at the
/// first command the driver fails on. This states the whole failure policy:
/// `Ok` exactly when every command was handed and accepted (an empty
/// sequence succeeds without consulting the driver); `Err` exactly when the
/// last handed command was refused, every earlier one was accepted, and the
/// rest of `cmds` was never handed.
pub fn run_all<D: Driver>(d: &mut D, cmds: &Vec<DriverCmd>) -> (r: Result<(), DriverError>)
    ensures
        r is Ok ==> final(d).issued() == old(d).issued() + cmds@
            && final(d).outcomes() == old(d).outcomes() + accepted(cmds@.len()),
        r is Err ==> exists|k: int|
            1 <= k <= cmds@.len()
                && final(d).issued() == old(d).issued() + cmds@.take(k)
                && final(d).outcomes() == old(d).outcomes() + accepted((k - 1) as nat).push(false),
        cmds@.len() == 0 ==> r is Ok,
        exists|k: int|
            0 <= k <= cmds@.len() && final(d).issued() == old(d).issued() + cmds@.take(k) && (
            r is Ok ==> k == cmds@.len()) && (r is Err ==> 1 <= k),
        r is Err ==> final(d).issued().len() > old(d).issued().len(),
{
    let ghost orig = d.issued();
    let ghost orig_out = d.outcomes();
    let mut i: usize = 0;
    while i < cmds.len()
        invariant
            0 <= i <= cmds@.len(),
            d.issued() == orig + cmds@.take(i as int),
            d.outcomes() == orig_out + accepted(i as nat),
            orig == old(d).issued(),
            orig_out == old(d).outcomes(),
        decreases cmds@.len() - i,
    {
        let ok = d.run(cmds[i]);
        i += 1;
        proof {
            assert(cmds@.take(i as int) == cmds@.take(i as int - 1).push(cmds@[i as int - 1]));
        }
        if !ok {
            proof {
                assert(d.outcomes() =~= orig_out + accepted((i - 1) as nat).push(false));
            }
            return Err(DriverError);
        }
        proof {
            assert(accepted(i as nat) =~= accepted((i - 1) as nat).push(true));
        }
    }
    proof {
        assert(cmds@.take(cmds@.len() as int) == cmds@);
    }
    Ok(())
}

impl Style {
    /// The apply command for the foreground color: none for the sentinel.
    pub open spec fn spec_fg_cmds(self) -> Seq<DriverCmd> {
        match self.spec_fg().spec_term_constant() {
            Some(c) => seq![DriverCmd::Fg(c)],
            None => Seq::<DriverCmd>::empty(),
        }
    }

    /// The apply command for the background color: none for the sentinel.
    pub open spec fn spec_bg_cmds(self) -> Seq<DriverCmd> {
        match self.spec_bg().spec_term_constant() {
            Some(c) => seq![DriverCmd::Bg(c)],
            None => Seq::<DriverCmd>::empty(),
        }
    }

    /// The apply command for bold: issued only when explicitly on, since the
    /// driver cannot turn bold off on its own.
    pub open spec fn spec_bold_cmds(self) -> Seq<DriverCmd> {
        if self.spec_bold() == Some(true) {
            seq![DriverCmd::Bold]
        } else {
            Seq::<DriverCmd>::empty()
        }
    }

    /// The apply command for dim: issued only when explicitly on.
    pub open spec fn spec_dim_cmds(self) -> Seq<DriverCmd> {
        if self.spec_dim() == Some(true) {
            seq![DriverCmd::Dim]
        } else {
            Seq::<DriverCmd>::empty()
        }
    }

    /// The apply command for underline: issued whenever the flag is
    /// explicitly set, whether on or off; the driver supports both.
    pub open spec fn spec_underline_cmds(self) -> Seq<DriverCmd> {
        match self.spec_underline() {
            Some(u) => seq![DriverCmd::Underline(u)],
            None => Seq::<DriverCmd>::empty(),
        }
    }

    /// The apply command for blink: issued only when explicitly on.
    pub open spec fn spec_blink_cmds(self) -> Seq<DriverCmd> {
        if self.spec_blink() == Some(true) {
            seq![DriverCmd::Blink]
        } else {
            Seq::<DriverCmd>::empty()
        }
    }

    /// The apply command for reverse: issued only when explicitly on.
    pub open spec fn spec_reverse_cmds(self) -> Seq<DriverCmd> {
        if self.spec_reverse() == Some(true) {
            seq![DriverCmd::Reverse]
        } else {
            Seq::<DriverCmd>::empty()
        }
    }

    /// The apply command for secure: issued only when explicitly on.
    pub open spec fn spec_secure_cmds(self) -> Seq<DriverCmd> {
        if self.spec_secure() == Some(true) {
            seq![DriverCmd::Secure]
        } else {
            Seq::<DriverCmd>::empty()
        }
    }

    /// The commands that applying this style issues, in order: foreground
    /// color and background color where not the sentinel, then one command
    /// for each flag that calls for one. An unset flag and a sentinel color
    /// issue nothing.
    pub open spec fn spec_apply_cmds(self) -> Seq<DriverCmd> {
        self.spec_fg_cmds() + self.spec_bg_cmds() + self.spec_bold_cmds() + self.spec_dim_cmds()
            + self.spec_underline_cmds() + self.spec_blink_cmds() + self.spec_reverse_cmds()
            + self.spec_secure_cmds()
    }

    /// The commands that reverting to this style issues: a full reset,
    /// followed by this style's apply commands.
    pub open spec fn spec_revert_cmds(self) -> Seq<DriverCmd> {
        seq![DriverCmd::Reset] + self.spec_apply_cmds()
    }

    /// Builds the command sequence that [`Style::apply`] issues.
    #[verifier::rlimit(100)]
    pub fn apply_cmds(&self) -> (v: Vec<DriverCmd>)
        ensures
            v@ == self.spec_apply_cmds(),
    {
        let mut v: Vec<DriverCmd> = Vec::new();
        if let Some(c) = self.get_fg().term_constant() {
            v.push(DriverCmd::Fg(c));
        }
        proof {
            assert(v@ =~= self.spec_fg_cmds());
        }
        if let Some(c) = self.get_bg().term_constant() {
            v.push(DriverCmd::Bg(c));
        }
        proof {
            assert(v@ =~= self.spec_fg_cmds() + self.spec_bg_cmds());
        }
        if let Some(true) = self.get_bold() {
            v.push(DriverCmd::Bold);
        }
        proof {
            assert(v@ =~= self.spec_fg_cmds() + self.spec_bg_cmds() + self.spec_bold_cmds());
        }
        if let Some(true) = self.get_dim() {
            v.push(DriverCmd::Dim);
        }
        proof {
            assert(v@ =~= self.spec_fg_cmds() + self.spec_bg_cmds() + self.spec_bold_cmds()
                + self.spec_dim_cmds());
        }
        if let Some(u) = self.get_underline() {
            v.push(DriverCmd::Underline(u));
        }
        proof {
            assert(v@ =~= self.spec_fg_cmds() + self.spec_bg_cmds() + self.spec_bold_cmds()
                + self.spec_dim_cmds() + self.spec_underline_cmds());
        }
        if let Some(true) = self.get_blink() {
            v.push(DriverCmd::Blink);
        }
        proof {
            assert(v@ =~= self.spec_fg_cmds() + self.spec_bg_cmds() + self.spec_bold_cmds()
                + self.spec_dim_cmds() + self.spec_underline_cmds() + self.spec_blink_cmds());
        }
        if let Some(true) = self.get_reverse() {
            v.push(DriverCmd::Reverse);
        }
        proof {
            assert(v@ =~= self.spec_fg_cmds() + self.spec_bg_cmds() + self.spec_bold_cmds()
                + self.spec_dim_cmds() + self.spec_underline_cmds() + self.spec_blink_cmds()
                + self.spec_reverse_cmds());
        }
        if let Some(true) = self.get_secure() {
            v.push(DriverCmd::Secure);
        }
        proof {
            assert(v@ =~= self.spec_apply_cmds());
        }
        v
    }

    /// Applies this style through the driver: issues the commands of
    /// [`Style::spec_apply_cmds`] in order, stopping at the first one the
    /// driver fails on. `Ok` exactly when the whole plan was handed and
    /// accepted; `Err` exactly when the driver refused a command, in which
    /// case every earlier command was accepted and nothing after the refused
    /// one was handed. Already-issued commands are not rolled back, so a
    /// failure can leave the terminal partially styled until the next reset.
    /// A style whose plan is empty — the default style among them — succeeds
    /// without consulting the driver, even where no terminal exists.
    pub fn apply<D: Driver>(&self, d: &mut D) -> (r: Result<(), DriverError>)
        ensures
            r is Ok ==> final(d).issued() == old(d).issued() + self.spec_apply_cmds()
                && final(d).outcomes() == old(d).outcomes() + accepted(
                    self.spec_apply_cmds().len(),
                ),
            r is Err ==> exists|k: int|
                1 <= k <= self.spec_apply_cmds().len()
                    && final(d).issued() == old(d).issued() + self.spec_apply_cmds().take(k)
                    && final(d).outcomes() == old(d).outcomes() + accepted((k - 1) as nat).push(
                    false,
                ),
            self.spec_apply_cmds().len() == 0 ==> r is Ok,
            exists|k: int|
                0 <= k <= self.spec_apply_cmds().len() && final(d).issued() == old(d).issued()
                    + self.spec_apply_cmds().take(k) && (r is Ok ==> k
                    == self.spec_apply_cmds().len()) && (r is Err ==> 1 <= k),
            r is Err ==> final(d).issued().len() > old(d).issued().len(),
    {
        let cmds = self.apply_cmds();
        run_all(d, &cmds)
    }

    /// Resets the whole terminal to its default state, then applies this
    /// style. This is how a previously active style is restored: terminal
    /// state cannot be read back, so the only safe revert is a full reset
    /// followed by a re-apply. The Reset is always handed to the driver
    /// first; `Ok` exactly when it and the whole apply plan were accepted;
    /// `Err` exactly when some command was refused, in which case nothing
    /// after it was handed — a refused Reset means the apply plan was never
    /// started.
    pub fn revert_to<D: Driver>(&self, d: &mut D) -> (r: Result<(), DriverError>)
        ensures
            r is Ok ==> final(d).issued() == old(d).issued() + self.spec_revert_cmds()
                && final(d).outcomes() == old(d).outcomes() + accepted(
                    self.spec_revert_cmds().len(),
                ),
            r is Err ==> exists|k: int|
                1 <= k <= self.spec_revert_cmds().len()
                    && final(d).issued() == old(d).issued() + self.spec_revert_cmds().take(k)
                    && final(d).outcomes() == old(d).outcomes() + accepted((k - 1) as nat).push(
                    false,
                ),
            exists|k: int|
                1 <= k <= self.spec_revert_cmds().len() && final(d).issued() == old(d).issued()
                    + self.spec_revert_cmds().take(k) && (r is Ok ==> k
                    == self.spec_revert_cmds().len()),
            final(d).issued().len() > old(d).issued().len(),
    {
        if !d.run(DriverCmd::Reset) {
            proof {
                assert(self.spec_revert_cmds().take(1) =~= seq![DriverCmd::Reset]);
                assert(old(d).issued().push(DriverCmd::Reset) =~= old(d).issued() + seq![
                    DriverCmd::Reset,
                ]);
                assert(d.outcomes() =~= old(d).outcomes() + accepted(0).push(false));
            }
            return Err(DriverError);
        }
        proof {
            assert(old(d).issued().push(DriverCmd::Reset) =~= old(d).issued() + seq![
                DriverCmd::Reset,
            ]);
        }
        let r = self.apply(d);
        proof {
            let mid = old(d).issued() + seq![DriverCmd::Reset];
            let mid_out = old(d).outcomes().push(true);
            match r {
                Ok(_) => {
                    assert(d.issued() =~= old(d).issued() + self.spec_revert_cmds());
                    assert(self.spec_revert_cmds().take(self.spec_revert_cmds().len() as int)
                        =~= self.spec_revert_cmds());
                    assert(d.outcomes() =~= old(d).outcomes() + accepted(
                        self.spec_revert_cmds().len(),
                    ));
                },
                Err(_) => {
                    let k = choose|k: int|
                        1 <= k <= self.spec_apply_cmds().len() && d.issued() == mid
                            + self.spec_apply_cmds().take(k) && d.outcomes() == mid_out + accepted(
                            (k - 1) as nat,
                        ).push(false);
                    assert(self.spec_revert_cmds().take(k + 1) =~= seq![DriverCmd::Reset]
                        + self.spec_apply_cmds().take(k));
                    assert(d.issued() =~= old(d).issued() + self.spec_revert_cmds().take(k + 1));
                    assert(d.outcomes() =~= old(d).outcomes() + accepted(k as nat).push(false));
                },
            }
        }
        r
    }
}


/// The default style changes nothing when applied: its command plan is
/// empty. Applying it is a no-op on the terminal, which is what makes a
/// fresh context's belief — default style active, nothing issued — honest.
pub proof fn lemma_default_applies_nothing()
    ensures
        Style::spec_default().spec_apply_cmds() =~= Seq::<DriverCmd>::empty(),
        Style::spec_default().spec_revert_cmds() =~= seq![DriverCmd::Reset],
{
    crate::style::lemma_default_props();
}

} // verus!
