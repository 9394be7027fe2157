//! The Poseidon sponge: one capacity element in front, then the rate.

use crate::error::{outcome, PoseidonError};
use crate::field::{lemma_field_order, reduced, Field};
use crate::host::{
    elements, env_clone, poseidon_permutation, poseidon_permutation_output, rows, vec_get_unchecked,
    vec_new, vec_push_back, vec_set, HostMatrix, HostVec,
};
use crate::poseidon::params::{
    get_mds, get_rc, mds, round_constants, rounds_p, spec_rounds_p, supported_width, ROUNDS_F,
    SBOX_D,
};
use crate::uint256::{lemma_view_injective, values, Uint256};
use vstd::prelude::*;

verus! {

/// The number of capacity elements of the sponge.
pub const CAPACITY: u32 = 1;

/// The state before the permutation: zero in the capacity slot, then the
/// inputs, then zeros up to the width.
pub open spec fn absorbed_state(width: u32, inputs: Seq<nat>) -> Seq<nat> {
    Seq::new(
        width as nat,
        |i: int|
            if CAPACITY <= i < CAPACITY + inputs.len() {
                inputs[i - CAPACITY]
            } else {
                0
            },
    )
}

/// The state that the host's permutation makes of `state`, with the
/// parameters that the table has for the field and the width.
pub open spec fn permuted(field: Field, width: u32, state: Seq<nat>) -> Seq<nat> {
    poseidon_permutation_output(
        state,
        field.spec_symbol(),
        width,
        SBOX_D,
        ROUNDS_F,
        spec_rounds_p(field, width),
        mds(field, width),
        round_constants(field, width),
    )
}

/// The digest of a sequence of inputs that fits the rate: the first element
/// of the permuted state.
pub open spec fn poseidon_digest(field: Field, width: u32, inputs: Seq<nat>) -> nat {
    permuted(field, width, absorbed_state(width, inputs))[0]
}

/// What a sponge of a supported width answers to a sequence of inputs.
pub open spec fn poseidon_outcome(field: Field, width: u32, inputs: Seq<nat>) -> Result<
    nat,
    PoseidonError,
> {
    if inputs.len() == 0 {
        Err(PoseidonError::EmptyInput)
    } else if inputs.len() > width - CAPACITY {
        Err(PoseidonError::InputExceedsRate)
    } else {
        Ok(poseidon_digest(field, width, inputs))
    }
}

/// The parameters of Poseidon for one field and one supported width.
#[derive(Clone, Copy, Debug)]
pub struct PoseidonConfig {
    field: Field,
    width: u32,
}

impl PoseidonConfig {
    #[verifier::type_invariant]
    spec fn well_formed(self) -> bool {
        supported_width(self.width)
    }

    /// The field.
    pub closed spec fn spec_field(self) -> Field {
        self.field
    }

    /// The width of the state.
    pub closed spec fn spec_width(self) -> u32 {
        self.width
    }

    /// The entry of the table for a field and a width: there is one for each
    /// width from 2 to 6.
    pub fn lookup(field: Field, width: u32) -> (r: Result<PoseidonConfig, PoseidonError>)
        ensures
            supported_width(width) ==> r is Ok && r->Ok_0.spec_field() == field
                && r->Ok_0.spec_width() == width,
            !supported_width(width) ==> r == Err::<PoseidonConfig, _>(
                PoseidonError::UnsupportedParameters,
            ),
    {
        if 2 <= width && width <= 6 {
            Ok(PoseidonConfig { field, width })
        } else {
            Err(PoseidonError::UnsupportedParameters)
        }
    }

    /// The field.
    pub fn field(&self) -> (field: Field)
        ensures
            field == self.spec_field(),
    {
        self.field
    }

    /// The width of the state, from 2 to 6.
    pub fn width(&self) -> (width: u32)
        ensures
            width == self.spec_width(),
            supported_width(width),
    {
        proof {
            use_type_invariant(self);
        }
        self.width
    }

    /// The number of inputs that one hash takes at most: the width less the
    /// capacity.
    pub fn rate(&self) -> (rate: u32)
        ensures
            rate == self.spec_width() - CAPACITY,
    {
        proof {
            use_type_invariant(self);
        }
        self.width - CAPACITY
    }

    /// The number of full rounds.
    pub fn rounds_f(&self) -> (n: u32)
        ensures
            n == ROUNDS_F,
    {
        ROUNDS_F
    }

    /// The number of partial rounds.
    pub fn rounds_p(&self) -> (n: u32)
        ensures
            n == spec_rounds_p(self.spec_field(), self.spec_width()),
    {
        proof {
            use_type_invariant(self);
        }
        rounds_p(self.field, self.width)
    }

    /// The MDS matrix, as a host matrix made in `env`.
    pub fn get_mds(&self, env: &soroban_sdk::Env) -> (m: HostMatrix)
        ensures
            rows(m) == mds(self.spec_field(), self.spec_width()),
    {
        proof {
            use_type_invariant(self);
        }
        get_mds(env, self.field, self.width)
    }

    /// The round constants, as a host matrix made in `env`.
    pub fn get_rc(&self, env: &soroban_sdk::Env) -> (m: HostMatrix)
        ensures
            rows(m) == round_constants(self.spec_field(), self.spec_width()),
    {
        proof {
            use_type_invariant(self);
        }
        get_rc(env, self.field, self.width)
    }
}

/// The parameters of a sponge as the host takes them.
pub(crate) struct PoseidonParams {
    pub rounds_f: u32,
    pub rounds_p: u32,
    pub mds: HostMatrix,
    pub rc: HostMatrix,
}

/// A Poseidon sponge for one field and one width. It absorbs once and
/// squeezes once: every hash starts from a fresh state, and what a sponge
/// keeps between hashes is its parameters.
pub struct PoseidonSponge {
    env: soroban_sdk::Env,
    field: Field,
    width: u32,
    state: HostVec,
    params: PoseidonParams,
}

impl PoseidonSponge {
    /// The sponge is as `new` made it and every hash leaves it: the width is
    /// supported, the state has as many elements as the width says, and the
    /// parameters are those that the table has for the field and the width.
    pub closed spec fn wf(self) -> bool {
        &&& supported_width(self.width)
        &&& elements(self.state).len() == self.width
        &&& self.params.rounds_f == ROUNDS_F
        &&& self.params.rounds_p == spec_rounds_p(self.field, self.width)
        &&& rows(self.params.mds) == mds(self.field, self.width)
        &&& rows(self.params.rc) == round_constants(self.field, self.width)
    }

    /// The field of the sponge.
    pub closed spec fn field(self) -> Field {
        self.field
    }

    /// The width of the state.
    pub closed spec fn width(self) -> u32 {
        self.width
    }

    /// The elements of the state.
    pub closed spec fn state(self) -> Seq<nat> {
        elements(self.state)
    }

    /// A sponge has a width that the table has parameters for, and a state of
    /// that many elements.
    pub proof fn lemma_width_supported(self)
        requires
            self.wf(),
        ensures
            supported_width(self.width()),
            self.state().len() == self.width(),
    {
    }

    /// A state of `width` zeros.
    fn zero_state(env: &soroban_sdk::Env, width: u32) -> (state: HostVec)
        ensures
            elements(state) == Seq::new(width as nat, |i: int| 0nat),
    {
        let mut state = vec_new(env);
        let zero = Uint256::from_u32(0);
        let mut i: u32 = 0;
        while i < width
            invariant
                i <= width,
                zero@ == 0,
                elements(state) == Seq::new(i as nat, |k: int| 0nat),
            decreases width - i,
        {
            vec_push_back(&mut state, &zero);
            i += 1;
            assert(elements(state) =~= Seq::new(i as nat, |k: int| 0nat));
        }
        state
    }

    /// Sets every element of the state to zero.
    pub fn reset_state(&mut self)
        requires
            old(self).wf(),
        ensures
            final(self).wf(),
            final(self).field() == old(self).field(),
            final(self).width() == old(self).width(),
            final(self).state() == Seq::new(old(self).width() as nat, |i: int| 0nat),
    {
        self.state = Self::zero_state(&self.env, self.width);
    }

    /// A sponge for a field and a width. It resolves the parameters once, for
    /// all the hashes to come; there are parameters for each width from 2 to 6.
    pub fn new(env: &soroban_sdk::Env, field: Field, width: u32) -> (r: Result<
        PoseidonSponge,
        PoseidonError,
    >)
        ensures
            supported_width(width) ==> r is Ok && r->Ok_0.wf() && r->Ok_0.field() == field
                && r->Ok_0.width() == width && r->Ok_0.state() == Seq::new(
                width as nat,
                |i: int| 0nat,
            ),
            !supported_width(width) ==> r is Err && r->Err_0
                == PoseidonError::UnsupportedParameters,
    {
        let config = match PoseidonConfig::lookup(field, width) {
            Ok(config) => config,
            Err(e) => {
                return Err(e);
            },
        };
        let params = PoseidonParams {
            rounds_f: config.rounds_f(),
            rounds_p: config.rounds_p(),
            mds: config.get_mds(env),
            rc: config.get_rc(env),
        };
        Ok(
            PoseidonSponge {
                env: env_clone(env),
                field,
                width,
                state: Self::zero_state(env, width),
                params,
            },
        )
    }

    /// Replaces the state by what the host's permutation makes of it.
    pub fn perform_duplex(&mut self)
        requires
            old(self).wf(),
        ensures
            final(self).wf(),
            final(self).field() == old(self).field(),
            final(self).width() == old(self).width(),
            final(self).state() == permuted(old(self).field(), old(self).width(), old(self).state()),
            final(self).state() == permuted(
                old(self).field(),
                old(self).width(),
                reduced(old(self).state(), old(self).field().spec_modulus()),
            ),
            forall|i: int|
                0 <= i < old(self).width() ==> (#[trigger] final(self).state()[i]) < old(
                    self,
                ).field().spec_modulus(),
    {
        proof {
            lemma_field_order(self.field);
        }
        self.state = poseidon_permutation(
            &self.env,
            &self.state,
            self.field.symbol(),
            self.width,
            SBOX_D,
            self.params.rounds_f,
            self.params.rounds_p,
            &self.params.mds,
            &self.params.rc,
        );
    }

    /// Writes the inputs into the rate, after the capacity element; the rest
    /// of the state stays as it is. More inputs than the rate are refused, and
    /// the state stays as it is.
    pub fn absorb(&mut self, inputs: &Vec<Uint256>) -> (r: Result<(), PoseidonError>)
        requires
            old(self).wf(),
        ensures
            final(self).wf(),
            final(self).field() == old(self).field(),
            final(self).width() == old(self).width(),
            inputs.len() > old(self).width() - CAPACITY ==> r == Err::<(), _>(
                PoseidonError::InputExceedsRate,
            ) && final(self).state() == old(self).state(),
            inputs.len() <= old(self).width() - CAPACITY ==> r is Ok && final(self).state()
                == Seq::new(
                old(self).width() as nat,
                |i: int|
                    if CAPACITY <= i < CAPACITY + inputs.len() {
                        inputs[i - CAPACITY]@
                    } else {
                        old(self).state()[i]
                    },
            ),
    {
        if inputs.len() > (self.width - CAPACITY) as usize {
            return Err(PoseidonError::InputExceedsRate);
        }
        let n = inputs.len() as u32;
        let mut i: u32 = 0;
        while i < n
            invariant
                i <= n,
                n == inputs.len(),
                n <= self.width - CAPACITY,
                self.field == old(self).field,
                self.width == old(self).width,
                self.wf(),
                elements(self.state) == Seq::new(
                    self.width as nat,
                    |k: int|
                        if CAPACITY <= k < CAPACITY + i {
                            inputs[k - CAPACITY]@
                        } else {
                            elements(old(self).state)[k]
                        },
                ),
            decreases n - i,
        {
            vec_set(&mut self.state, i + CAPACITY, &inputs[i as usize]);
            i += 1;
            assert(elements(self.state) =~= Seq::new(
                self.width as nat,
                |k: int|
                    if CAPACITY <= k < CAPACITY + i {
                        inputs[k - CAPACITY]@
                    } else {
                        elements(old(self).state)[k]
                    },
            ));
        }
        Ok(())
    }

    /// Permutes the state and returns its first element.
    pub fn squeeze(&mut self) -> (digest: Uint256)
        requires
            old(self).wf(),
        ensures
            final(self).wf(),
            final(self).field() == old(self).field(),
            final(self).width() == old(self).width(),
            final(self).state() == permuted(old(self).field(), old(self).width(), old(self).state()),
            final(self).state() == permuted(
                old(self).field(),
                old(self).width(),
                reduced(old(self).state(), old(self).field().spec_modulus()),
            ),
            digest@ == final(self).state()[0],
            digest@ < old(self).field().spec_modulus(),
    {
        self.perform_duplex();
        self.output()
    }

    /// The output of the sponge as it stands: the first element of the state.
    pub fn output(&self) -> (digest: Uint256)
        requires
            self.wf(),
        ensures
            digest@ == self.state()[0],
    {
        let bytes = vec_get_unchecked(&self.state, 0);
        Uint256::from_be_bytes(&bytes)
    }

    /// Hashes the inputs, from a fresh state: what came before on this sponge
    /// has no part in the digest. The inputs are at least one and at most the
    /// width less one. They need not be below the field's modulus: the host
    /// reads them modulo it, so the inputs reduced have the same digest. The
    /// digest is below the field's modulus, and the state is left as the
    /// permutation made it.
    pub fn compute_hash(&mut self, inputs: &Vec<Uint256>) -> (r: Result<Uint256, PoseidonError>)
        requires
            old(self).wf(),
        ensures
            final(self).wf(),
            final(self).field() == old(self).field(),
            final(self).width() == old(self).width(),
            outcome(r) == poseidon_outcome(old(self).field(), old(self).width(), values(inputs@)),
            outcome(r) == poseidon_outcome(
                old(self).field(),
                old(self).width(),
                reduced(values(inputs@), old(self).field().spec_modulus()),
            ),
            r is Ok ==> r->Ok_0@ < old(self).field().spec_modulus(),
            r is Ok ==> final(self).state() == permuted(
                old(self).field(),
                old(self).width(),
                absorbed_state(old(self).width(), values(inputs@)),
            ),
    {
        if inputs.len() == 0 {
            return Err(PoseidonError::EmptyInput);
        }
        self.reset_state();
        match self.absorb(inputs) {
            Ok(()) => {},
            Err(e) => {
                return Err(e);
            },
        }
        proof {
            let modulus = self.field().spec_modulus();
            let given = values(inputs@);
            assert(self.state() =~= absorbed_state(self.width(), given));
            assert(reduced(absorbed_state(self.width(), given), modulus) =~= absorbed_state(
                self.width(),
                reduced(given, modulus),
            ));
        }
        Ok(self.squeeze())
    }
}

/// Hashing is a function of the field, the width and the inputs: two sponges
/// of one field and width, fresh or used, give the same answer to the same
/// inputs, and so does one sponge asked twice.
pub proof fn lemma_compute_hash_deterministic(
    a: PoseidonSponge,
    b: PoseidonSponge,
    inputs_a: Seq<Uint256>,
    inputs_b: Seq<Uint256>,
    answer_a: Result<Uint256, PoseidonError>,
    answer_b: Result<Uint256, PoseidonError>,
)
    requires
        a.wf(),
        b.wf(),
        a.field() == b.field(),
        a.width() == b.width(),
        values(inputs_a) == values(inputs_b),
        outcome(answer_a) == poseidon_outcome(a.field(), a.width(), values(inputs_a)),
        outcome(answer_b) == poseidon_outcome(b.field(), b.width(), values(inputs_b)),
    ensures
        answer_a == answer_b,
{
    if answer_a is Ok {
        lemma_view_injective(answer_a->Ok_0, answer_b->Ok_0);
    }
}

/// Inputs that are the same modulo the field's modulus have the same answer:
/// what `compute_hash` says of the one and of the other is one result.
pub proof fn lemma_congruent_inputs_same_answer(
    field: Field,
    width: u32,
    inputs_a: Seq<Uint256>,
    inputs_b: Seq<Uint256>,
    answer_a: Result<Uint256, PoseidonError>,
    answer_b: Result<Uint256, PoseidonError>,
)
    requires
        reduced(values(inputs_a), field.spec_modulus()) == reduced(
            values(inputs_b),
            field.spec_modulus(),
        ),
        outcome(answer_a) == poseidon_outcome(
            field,
            width,
            reduced(values(inputs_a), field.spec_modulus()),
        ),
        outcome(answer_b) == poseidon_outcome(
            field,
            width,
            reduced(values(inputs_b), field.spec_modulus()),
        ),
    ensures
        answer_a == answer_b,
{
    if answer_a is Ok {
        lemma_view_injective(answer_a->Ok_0, answer_b->Ok_0);
    }
}

/// As many inputs as the rate are hashed; one more is refused.
pub proof fn lemma_rate_boundary(field: Field, width: u32, inputs: Seq<nat>)
    requires
        supported_width(width),
    ensures
        inputs.len() == width - CAPACITY ==> poseidon_outcome(field, width, inputs) is Ok,
        inputs.len() == width ==> poseidon_outcome(field, width, inputs) == Err::<nat, _>(
            PoseidonError::InputExceedsRate,
        ),
{
}

/// No inputs at all are refused, whatever the field and the width.
pub proof fn lemma_empty_input_rejected(field: Field, width: u32)
    ensures
        poseidon_outcome(field, width, Seq::<nat>::empty()) == Err::<nat, _>(
            PoseidonError::EmptyInput,
        ),
{
}

/// Two sequences of inputs of one length that fit the rate and start the
/// permutation from the same state are the same sequence.
pub proof fn lemma_absorbed_state_injective(width: u32, a: Seq<nat>, b: Seq<nat>)
    requires
        a.len() == b.len(),
        a.len() <= width - CAPACITY,
        absorbed_state(width, a) == absorbed_state(width, b),
    ensures
        a == b,
{
    assert forall|i: int| 0 <= i < a.len() implies a[i] == b[i] by {
        assert(absorbed_state(width, a)[i + CAPACITY] == a[i]);
        assert(absorbed_state(width, b)[i + CAPACITY] == b[i]);
    }
    assert(a =~= b);
}

/// The order of the inputs reaches the permutation: inputs that read
/// differently backwards start it from another state than their reverse.
pub proof fn lemma_order_reaches_permutation(width: u32, inputs: Seq<nat>)
    requires
        inputs.len() <= width - CAPACITY,
        inputs != inputs.reverse(),
    ensures
        absorbed_state(width, inputs) != absorbed_state(width, inputs.reverse()),
{
    if absorbed_state(width, inputs) == absorbed_state(width, inputs.reverse()) {
        lemma_absorbed_state_injective(width, inputs, inputs.reverse());
    }
}

} // verus!
