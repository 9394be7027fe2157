//! The parameter table of Poseidon2: for each field and width the number
//! of rounds, the diagonal of the internal matrix and the round constants.
//!
//! The round constants are the output of the Grain LFSR that the Poseidon2
//! paper prescribes, for an S-box of degree 5, eight full and 56 partial
//! rounds; a partial round uses the first number of its row only, and the
//! others are zero. For the widths 2 and 3 the internal matrix is fixed, and
//! its diagonal less the identity is 1, 2 and 1, 1, 2. For width 4 the
//! diagonal is that of the published instance of the field: for BN254 the one
//! that noir uses.

use crate::field::Field;
use crate::host::{elements, rows, HostMatrix, HostVec};
use crate::table::{grid, host_matrix, host_vector, line, Limbs};
use vstd::prelude::*;

verus! {

/// The degree of the S-box.
pub const SBOX_D: u32 = 5;

/// The number of full rounds, the same for every field and width.
pub const ROUNDS_F: u32 = 8;

/// The number of partial rounds, the same for every field and width.
pub const ROUNDS_P: u32 = 56;

/// The widths that the table has entries for.
pub open spec fn supported_width(width: u32) -> bool {
    2 <= width <= 4
}

/// The entries of the diagonal for a field and a supported width.
pub closed spec fn mat_diag_flat(field: Field, width: u32) -> Seq<Limbs> {
    match field {
        Field::Bn254 => {
            if width == 2 {
                MAT_DIAG_BN254_T_2@
            } else if width == 3 {
                MAT_DIAG_BN254_T_3@
            } else {
                MAT_DIAG_BN254_T_4@
            }
        },
        Field::Bls12381 => {
            if width == 2 {
                MAT_DIAG_BLS12_381_T_2@
            } else if width == 3 {
                MAT_DIAG_BLS12_381_T_3@
            } else {
                MAT_DIAG_BLS12_381_T_4@
            }
        },
    }
}

/// The entries of the round constants for a field and a supported width.
pub closed spec fn rc_flat(field: Field, width: u32) -> Seq<Limbs> {
    match field {
        Field::Bn254 => {
            if width == 2 {
                RC_BN254_T_2@
            } else if width == 3 {
                RC_BN254_T_3@
            } else {
                RC_BN254_T_4@
            }
        },
        Field::Bls12381 => {
            if width == 2 {
                RC_BLS12_381_T_2@
            } else if width == 3 {
                RC_BLS12_381_T_3@
            } else {
                RC_BLS12_381_T_4@
            }
        },
    }
}

/// The diagonal of the internal matrix, less the identity, for a field and a
/// supported width: `width` numbers.
pub open spec fn mat_diag(field: Field, width: u32) -> Seq<nat> {
    line(mat_diag_flat(field, width))
}

/// The round constants for a field and a supported width: for each round a row
/// of `width` numbers.
pub open spec fn round_constants(field: Field, width: u32) -> Seq<Seq<nat>> {
    grid(rc_flat(field, width), (ROUNDS_F + ROUNDS_P) as nat, width as nat)
}

/// The diagonal has one number for each slot of the state.
pub proof fn lemma_mat_diag_len(field: Field, width: u32)
    requires
        supported_width(width),
    ensures
        mat_diag(field, width).len() == width,
{
}

/// What the table holds for each field and width, entry by entry.
pub proof fn lemma_table_entries()
    ensures
        mat_diag_flat(Field::Bn254, 2) == MAT_DIAG_BN254_T_2@,
        rc_flat(Field::Bn254, 2) == RC_BN254_T_2@,
        mat_diag_flat(Field::Bn254, 3) == MAT_DIAG_BN254_T_3@,
        rc_flat(Field::Bn254, 3) == RC_BN254_T_3@,
        mat_diag_flat(Field::Bn254, 4) == MAT_DIAG_BN254_T_4@,
        rc_flat(Field::Bn254, 4) == RC_BN254_T_4@,
        mat_diag_flat(Field::Bls12381, 2) == MAT_DIAG_BLS12_381_T_2@,
        rc_flat(Field::Bls12381, 2) == RC_BLS12_381_T_2@,
        mat_diag_flat(Field::Bls12381, 3) == MAT_DIAG_BLS12_381_T_3@,
        rc_flat(Field::Bls12381, 3) == RC_BLS12_381_T_3@,
        mat_diag_flat(Field::Bls12381, 4) == MAT_DIAG_BLS12_381_T_4@,
        rc_flat(Field::Bls12381, 4) == RC_BLS12_381_T_4@,
{
}

/// The diagonal for a field and a supported width, as a host vector.
pub(crate) fn get_m_diag(env: &soroban_sdk::Env, field: Field, width: u32) -> (v: HostVec)
    requires
        supported_width(width),
    ensures
        elements(v) == mat_diag(field, width),
{
    match field {
        Field::Bn254 => {
            if width == 2 {
                host_vector(env, MAT_DIAG_BN254_T_2.as_slice())
            } else if width == 3 {
                host_vector(env, MAT_DIAG_BN254_T_3.as_slice())
            } else {
                host_vector(env, MAT_DIAG_BN254_T_4.as_slice())
            }
        },
        Field::Bls12381 => {
            if width == 2 {
                host_vector(env, MAT_DIAG_BLS12_381_T_2.as_slice())
            } else if width == 3 {
                host_vector(env, MAT_DIAG_BLS12_381_T_3.as_slice())
            } else {
                host_vector(env, MAT_DIAG_BLS12_381_T_4.as_slice())
            }
        },
    }
}

/// The round constants for a field and a supported width, as a host matrix.
pub(crate) fn get_rc(env: &soroban_sdk::Env, field: Field, width: u32) -> (m: HostMatrix)
    requires
        supported_width(width),
    ensures
        rows(m) == round_constants(field, width),
{
    match field {
        Field::Bn254 => {
            if width == 2 {
                host_matrix(env, RC_BN254_T_2.as_slice(), 64, 2)
            } else if width == 3 {
                host_matrix(env, RC_BN254_T_3.as_slice(), 64, 3)
            } else {
                host_matrix(env, RC_BN254_T_4.as_slice(), 64, 4)
            }
        },
        Field::Bls12381 => {
            if width == 2 {
                host_matrix(env, RC_BLS12_381_T_2.as_slice(), 64, 2)
            } else if width == 3 {
                host_matrix(env, RC_BLS12_381_T_3.as_slice(), 64, 3)
            } else {
                host_matrix(env, RC_BLS12_381_T_4.as_slice(), 64, 4)
            }
        },
    }
}

/// The diagonal of the internal matrix, less the identity, for BN254 and width 2.
pub const MAT_DIAG_BN254_T_2: [Limbs; 2] = [
    (0x0000000000000000, 0x0000000000000000, 0x0000000000000000, 0x0000000000000001),
    (0x0000000000000000, 0x0000000000000000, 0x0000000000000000, 0x0000000000000002),
];

/// The round constants for BN254 and width 2, round after round.
pub const RC_BN254_T_2: [Limbs; 128] = [
    (0x09c46e9ec68e9bd4, 0xfe1faaba294cba38, 0xa71aa177534cdd1b, 0x6c7dc0dbd0abd7a7),
    (0x0c0356530896eec4, 0x2a97ed937f3135cf, 0xc5142b3ae405b834, 0x3c1d83ffa604cb81),
    (0x1e28a1d935698ad1, 0x142e51182bb54cf4, 0xa00ea5aabd6268bd, 0x317ea977cc154a30),
    (0x27af2d831a9d2748, 0x080965db30e298e4, 0x0e5757c3e008db96, 0x4cf9e2b12b91251f),
    (0x1e6f11ce60fc8f51, 0x3a6a3cfe16ae175a, 0x41291462f214cd08, 0x79aaf43545b74e03),
    (0x2a67384d3bbd5e43, 0x8541819cb681f0be, 0x04462ed14c3613d8, 0xf719206268d142d3),
    (0x0b66fdf356093a61, 0x1609f8e12fbfecf0, 0xb985e381f0251889, 0x36408f5d5c9f45d0),
    (0x012ee3ec1e78d470, 0x830c61093c2ade37, 0x0b26c83cc5cebeed, 0xdaa6852dbdb09e21),
    (0x0252ba5f6760bfbd, 0xfd88f67f8175e3fd, 0x6cd1c431b099b6bb, 0x2d108e7b445bb1b9),
    (0x0000000000000000, 0x0000000000000000, 0x0000000000000000, 0x0000000000000000),
    (0x179474cceca5ff67, 0x6c6bec3cef542963, 0x54391a8935ff71d6, 0xef5aeaad7ca932f1),
    (0x0000000000000000, 0x0000000000000000, 0x0000000000000000, 0x0000000000000000),
    (0x2c24261379a51bfa, 0x9228ff4a503fd4ed, 0x9c1f974a264969b3, 0x7e1a2589bbed2b91),
    (0x0000000000000000, 0x0000000000000000, 0x0000000000000000, 0x0000000000000000),
    (0x1cc1d7b62692e63e, 0xac2f288bd0695b43, 0xc2f63f5001fc0fc5, 0x53e66c0551801b05),
    (0x0000000000000000, 0x0000000000000000, 0x0000000000000000, 0x0000000000000000),
    (0x255059301aada98b, 0xb2ed55f852979e96, 0x00784dbf17fbacd0, 0x5d9eff5fd9c91b56),
    (0x0000000000000000, 0x0000000000000000, 0x0000000000000000, 0x0000000000000000),
    (0x28437be3ac1cb2e4, 0x79e1f5c0eccd32b3, 0xaea24234970a8193, 0xb11c29ce7e59efd9),
    (0x0000000000000000, 0x0000000000000000, 0x0000000000000000, 0x0000000000000000),
    (0x28216a442f2e1f71, 0x1ca4fa6b53766eb1, 0x18548da8fb4f78d4, 0x338762c37f5f2043),
    (0x0000000000000000, 0x0000000000000000, 0x0000000000000000, 0x0000000000000000),
    (0x2c1f47cd17fa5adf, 0x1f39f4e7056dd03f, 0xeee1efce03094581, 0x131f2377323482c9),
    (0x0000000000000000, 0x0000000000000000, 0x0000000000000000, 0x0000000000000000),
    (0x07abad02b7a5ebc4, 0x8632bcc9356ceb7d, 0xd9dafca276638a63, 0x646b8566a621afc9),
    (0x0000000000000000, 0x0000000000000000, 0x0000000000000000, 0x0000000000000000),
    (0x0230264601ffdf29, 0x275b33ffaab51dfe, 0x9429f90880a69cd1, 0x37da0c4d15f96c3c),
    (0x0000000000000000, 0x0000000000000000, 0x0000000000000000, 0x0000000000000000),
    (0x1bc973054e51d905, 0xa0f168656497ca40, 0xa864414557ee289e, 0x717e5d66899aa0a9),
    (0x0000000000000000, 0x0000000000000000, 0x0000000000000000, 0x0000000000000000),
    (0x2e1c22f964435008, 0x206c3157e86341ed, 0xd249aff5c2d8421f, 0x2a6b22288f0a67fc),
    (0x0000000000000000, 0x0000000000000000, 0x0000000000000000, 0x0000000000000000),
    (0x1224f38df67c5378, 0x121c1d5f461bbc50, 0x9e8ea1598e46c9f7, 0xa70452bc2bba86b8),
    (0x0000000000000000, 0x0000000000000000, 0x0000000000000000, 0x0000000000000000),
    (0x02e4e69d8ba59e51, 0x9280b4bd9ed0068f, 0xd7bfe8cd9dfeda19, 0x69d2989186cde20e),
    (0x0000000000000000, 0x0000000000000000, 0x0000000000000000, 0x0000000000000000),
    (0x1f1eccc34aaba013, 0x7f5df81fc04ff3ee, 0x4f19ee364e653f07, 0x6d47e9735d98018e),
    (0x0000000000000000, 0x0000000000000000, 0x0000000000000000, 0x0000000000000000),
    (0x1672ad3d709a3539, 0x74266c3039a9a731, 0x1424448032cd1819, 0xeacb8a4d4284f582),
    (0x0000000000000000, 0x0000000000000000, 0x0000000000000000, 0x0000000000000000),
    (0x283e3fdc2c6e420c, 0x56f44af5192b4ae9, 0xcda6961f284d2499, 0x1d2ed602df8c8fc7),
    (0x0000000000000000, 0x0000000000000000, 0x0000000000000000, 0x0000000000000000),
    (0x1c2a3d120c550ecf, 0xd0db0957170fa013, 0x683751f8fdff59d6, 0x614fbd69ff394bcc),
    (0x0000000000000000, 0x0000000000000000, 0x0000000000000000, 0x0000000000000000),
    (0x216f84877aac6172, 0xf7897a7323456efe, 0x143a9a43773ea6f2, 0x96cb6b8177653fbd),
    (0x0000000000000000, 0x0000000000000000, 0x0000000000000000, 0x0000000000000000),
    (0x2c0d272becf2a757, 0x64ba7e8e3e28d12b, 0xceaa47ea61ca59a4, 0x11a1f51552f94788),
    (0x0000000000000000, 0x0000000000000000, 0x0000000000000000, 0x0000000000000000),
    (0x16e34299865c0e28, 0x484ee7a74c454e9f, 0x170a5480abe0508f, 0xcb4a6c3d89546f43),
    (0x0000000000000000, 0x0000000000000000, 0x0000000000000000, 0x0000000000000000),
    (0x175ceba599e96f5b, 0x375a232a6fb9cc71, 0x772047765802290f, 0x48cd939755488fc5),
    (0x0000000000000000, 0x0000000000000000, 0x0000000000000000, 0x0000000000000000),
    (0x0c7594440dc48c16, 0xfead9e1758b02806, 0x6aa410bfbc354f54, 0xd8c5ffbb44a1ee32),
    (0x0000000000000000, 0x0000000000000000, 0x0000000000000000, 0x0000000000000000),
    (0x1a3c29bc39f21bb5, 0xc466db7d7eb6fd8f, 0x760e20013ccf912c, 0x92479882d919fd8d),
    (0x0000000000000000, 0x0000000000000000, 0x0000000000000000, 0x0000000000000000),
    (0x0ccfdd906f3426e5, 0xc0986ea049b25340, 0x0855d349074f5a66, 0x95c8eeabcd22e68f),
    (0x0000000000000000, 0x0000000000000000, 0x0000000000000000, 0x0000000000000000),
    (0x14f6bc81d9f186f6, 0x2bdb475ce6c94118, 0x66a7a8a3fd065b3c, 0xe0e699b67dd9e796),
    (0x0000000000000000, 0x0000000000000000, 0x0000000000000000, 0x0000000000000000),
    (0x0962b82789fb3d12, 0x9702ca70b2f6c5aa, 0xcc099810c9c495c8, 0x88edeb7386b97052),
    (0x0000000000000000, 0x0000000000000000, 0x0000000000000000, 0x0000000000000000),
    (0x1a880af7074d18b3, 0xbf20c79de25127bc, 0x13284ab01ef02575, 0xafef0c8f6a31a86d),
    (0x0000000000000000, 0x0000000000000000, 0x0000000000000000, 0x0000000000000000),
    (0x10cba18419a6a332, 0xcd5e77f0211c154b, 0x20af2924fc20ff3f, 0x4c3012bb7ae9311b),
    (0x0000000000000000, 0x0000000000000000, 0x0000000000000000, 0x0000000000000000),
    (0x057e62a9a8f89b3e, 0xbdc76ba63a9eaca8, 0xfa27b7319cae3406, 0x756a2849f302f10d),
    (0x0000000000000000, 0x0000000000000000, 0x0000000000000000, 0x0000000000000000),
    (0x287c971de91dc0ab, 0xd44adf5384b4988c, 0xb961303bbf65cff5, 0xafa0413b44280cee),
    (0x0000000000000000, 0x0000000000000000, 0x0000000000000000, 0x0000000000000000),
    (0x21df3388af1687bb, 0xb3bca9da0cca908f, 0x1e562bc46d4aba4e, 0x6f7f7960e306891d),
    (0x0000000000000000, 0x0000000000000000, 0x0000000000000000, 0x0000000000000000),
    (0x1be5c887d25bce70, 0x3e25cc974d0934cd, 0x789df8f70b498fd8, 0x3eff8b560e1682b3),
    (0x0000000000000000, 0x0000000000000000, 0x0000000000000000, 0x0000000000000000),
    (0x268da36f76e568fb, 0x68117175cea2cd0d, 0xd2cb5d42fda5acea, 0x48d59c2706a0d5c1),
    (0x0000000000000000, 0x0000000000000000, 0x0000000000000000, 0x0000000000000000),
    (0x0e17ab091f6eae50, 0xc609beaf5510ecec, 0xc5d8bb74135ebd05, 0xbd06460cc26a5ed6),
    (0x0000000000000000, 0x0000000000000000, 0x0000000000000000, 0x0000000000000000),
    (0x04d727e728ffa0a6, 0x7aee535ab074a430, 0x91ef62d8cf83d270, 0x040f5caa1f62af40),
    (0x0000000000000000, 0x0000000000000000, 0x0000000000000000, 0x0000000000000000),
    (0x0ddbd7bf9c293415, 0x81b549762bc022ed, 0x33702ac10f1bfd86, 0x2b15417d7e39ca6e),
    (0x0000000000000000, 0x0000000000000000, 0x0000000000000000, 0x0000000000000000),
    (0x2790eb3351621752, 0x768162e82989c6c2, 0x34f5b0d1d3af9b58, 0x8a29c49c8789654b),
    (0x0000000000000000, 0x0000000000000000, 0x0000000000000000, 0x0000000000000000),
    (0x1e457c601a63b73e, 0x4471950193d8a570, 0x395f3d9ab8b2fd09, 0x84b764206142f9e9),
    (0x0000000000000000, 0x0000000000000000, 0x0000000000000000, 0x0000000000000000),
    (0x21ae64301dca9625, 0x638d6ab2bbe7135f, 0xfa90ecd0c43ff91f, 0xc4c686fc46e091b0),
    (0x0000000000000000, 0x0000000000000000, 0x0000000000000000, 0x0000000000000000),
    (0x0379f63c8ce3468d, 0x4da293166f494928, 0x854be9e3432e0955, 0x5858534eed8d350b),
    (0x0000000000000000, 0x0000000000000000, 0x0000000000000000, 0x0000000000000000),
    (0x002d56420359d026, 0x6a744a080809e054, 0xca0e4921a46686ac, 0x8c9f58a324c35049),
    (0x0000000000000000, 0x0000000000000000, 0x0000000000000000, 0x0000000000000000),
    (0x123158e5965b5d9b, 0x1d68b3cd32e10bbe, 0xda8d62459e21f409, 0x0fc2c5af963515a6),
    (0x0000000000000000, 0x0000000000000000, 0x0000000000000000, 0x0000000000000000),
    (0x0be29fc40847a941, 0x661d14bbf6cbe042, 0x0fbb2b6f52836d4e, 0x60c80eb49cad9ec1),
    (0x0000000000000000, 0x0000000000000000, 0x0000000000000000, 0x0000000000000000),
    (0x1ac96991dec2bb05, 0x57716142015a453c, 0x36db9d859cad5f9a, 0x233802f24fdf4c1a),
    (0x0000000000000000, 0x0000000000000000, 0x0000000000000000, 0x0000000000000000),
    (0x1596443f763dbcc2, 0x5f4964fc61d23b3e, 0x5e12c9fa97f18a92, 0x51ca3355bcb0627e),
    (0x0000000000000000, 0x0000000000000000, 0x0000000000000000, 0x0000000000000000),
    (0x12e0bcd3654bdfa7, 0x6b2861d4ec3aeae0, 0xf1857d9f17e715ae, 0xd6d049eae3ba3212),
    (0x0000000000000000, 0x0000000000000000, 0x0000000000000000, 0x0000000000000000),
    (0x0fc92b4f1bbea82b, 0x9ea73d4af9af2a50, 0xceabac7f37154b19, 0x04e6c76c7cf964ba),
    (0x0000000000000000, 0x0000000000000000, 0x0000000000000000, 0x0000000000000000),
    (0x1f9c0b1610446442, 0xd6f2e592a8013f40, 0xb14f7c7722236f4f, 0x9c7e965233872762),
    (0x0000000000000000, 0x0000000000000000, 0x0000000000000000, 0x0000000000000000),
    (0x0ebd74244ae72675, 0xf8cde06157a782f4, 0x050d914da38b4c05, 0x8d159f643dbbf4d3),
    (0x0000000000000000, 0x0000000000000000, 0x0000000000000000, 0x0000000000000000),
    (0x2cb7f0ed39e16e9f, 0x69a9fafd4ab951c0, 0x3b0671e97346ee39, 0x7a839839dccfc6d1),
    (0x0000000000000000, 0x0000000000000000, 0x0000000000000000, 0x0000000000000000),
    (0x1a9d6e2ecff022cc, 0x5605443ee41bab20, 0xce761d0514ce5266, 0x90c72bca7352d9bf),
    (0x0000000000000000, 0x0000000000000000, 0x0000000000000000, 0x0000000000000000),
    (0x2a115439607f335a, 0x5ea83c3bc44a9331, 0xd0c13326a9a7ba30, 0x87da182d648ec72f),
    (0x0000000000000000, 0x0000000000000000, 0x0000000000000000, 0x0000000000000000),
    (0x23f9b6529b5d040d, 0x15b8fa7aee3e3410, 0xe738b56305cd44f2, 0x9535c115c5a4c060),
    (0x0000000000000000, 0x0000000000000000, 0x0000000000000000, 0x0000000000000000),
    (0x05872c16db0f72a2, 0x249ac6ba484bb9c3, 0xa3ce97c16d58b68b, 0x260eb939f0e6e8a7),
    (0x0000000000000000, 0x0000000000000000, 0x0000000000000000, 0x0000000000000000),
    (0x1300bdee08bb7824, 0xca20fb80118075f4, 0x0219b6151d55b5c5, 0x2b624a7cdeddf6a7),
    (0x0000000000000000, 0x0000000000000000, 0x0000000000000000, 0x0000000000000000),
    (0x19b9b63d2f108e17, 0xe63817863a8f6c28, 0x8d7ad29916d98cb1, 0x072e4e7b7d52b376),
    (0x015bee1357e3c015, 0xb5bda237668522f6, 0x13d1c88726b5ec42, 0x24a20128481b4f7f),
    (0x2953736e94bb6b9f, 0x1b9707a4f1615e4e, 0xfe1e1ce4bab218cb, 0xea92c785b128ffd1),
    (0x0b069353ba091618, 0x862f806180c0385f, 0x851b98d372b45f54, 0x4ce7266ed6608dfc),
    (0x304f74d461ccc131, 0x15e4e0bcfb93817e, 0x55aeb7eb9306b64e, 0x4f588ac97d81f429),
    (0x15bbf146ce9bca09, 0xe8a33f5e77dfe4f5, 0xaad2a164a4617a4c, 0xb8ee5415cde913fc),
    (0x0ab4dfe0c2742cde, 0x44901031487964ed, 0x9b8f4b850405c10c, 0xa9ff23859572c8c6),
    (0x0e32db320a044e31, 0x97f45f7649a19675, 0xef5eedfea546dea9, 0x251de39f9639779a),
];

/// The diagonal of the internal matrix, less the identity, for BN254 and width 3.
pub const MAT_DIAG_BN254_T_3: [Limbs; 3] = [
    (0x0000000000000000, 0x0000000000000000, 0x0000000000000000, 0x0000000000000001),
    (0x0000000000000000, 0x0000000000000000, 0x0000000000000000, 0x0000000000000001),
    (0x0000000000000000, 0x0000000000000000, 0x0000000000000000, 0x0000000000000002),
];

/// The round constants for BN254 and width 3, round after round.
pub const RC_BN254_T_3: [Limbs; 192] = [
    (0x1d066a255517b7fd, 0x8bddd3a93f7804ef, 0x7f8fcde48bb4c37a, 0x59a09a1a97052816),
    (0x29daefb55f6f2dc6, 0xac3f089cebcc6120, 0xb7c6fef31367b68e, 0xb7238547d32c1610),
    (0x1f2cb1624a78ee00, 0x1ecbd88ad959d701, 0x2572d76f08ec5c4f, 0x9e8b7ad7b0b4e1d1),
    (0x0aad2e79f15735f2, 0xbd77c0ed3d14aa27, 0xb11f092a53bbc6e1, 0xdb0672ded84f31e5),
    (0x2252624f8617738c, 0xd6f661dd4094375f, 0x37028a98f1dece66, 0x091ccf1595b43f28),
    (0x1a24913a928b3848, 0x5a65a84a291da1ff, 0x91c20626524b2b87, 0xd49f4f2c9018d735),
    (0x22fc468f1759b74d, 0x7bfc427b5f11ebb1, 0x0a41515ddff497b1, 0x4fd6dae1508fc47a),
    (0x1059ca787f1f89ed, 0x9cd026e9c9ca107a, 0xe61956ff0b4121d5, 0xefd65515617f6e4d),
    (0x02be9473358461d8, 0xf61f3536d877de98, 0x2123011f0bf6f155, 0xa45cbbfae8b981ce),
    (0x0ec96c8e32962d46, 0x2778a749c82ed623, 0xaba9b669ac5b8736, 0xa1ff3a441a5084a4),
    (0x292f906e07367740, 0x5442d9553c45fa3f, 0x5a47a7cdb8c99f96, 0x48fb2e4d814df57e),
    (0x274982444157b867, 0x26c11b9a0f5e39a5, 0xcc611160a394ea46, 0x0c63f0b2ffe5657e),
    (0x1a1d063e54b1e764, 0xb63e1855bff015b8, 0xcedd192f47308731, 0x499573f23597d4b5),
    (0x0000000000000000, 0x0000000000000000, 0x0000000000000000, 0x0000000000000000),
    (0x0000000000000000, 0x0000000000000000, 0x0000000000000000, 0x0000000000000000),
    (0x26abc66f3fdf8e68, 0x839d109562590637, 0x08235dccc1aa3793, 0xb91b002c5b257c37),
    (0x0000000000000000, 0x0000000000000000, 0x0000000000000000, 0x0000000000000000),
    (0x0000000000000000, 0x0000000000000000, 0x0000000000000000, 0x0000000000000000),
    (0x0c7c64a9d8873853, 0x81a578cfed5aed37, 0x0754427aabca92a7, 0x0b3c2b12ff4d7be8),
    (0x0000000000000000, 0x0000000000000000, 0x0000000000000000, 0x0000000000000000),
    (0x0000000000000000, 0x0000000000000000, 0x0000000000000000, 0x0000000000000000),
    (0x1cf5998769e9fab7, 0x9e17f0b6d08b2d1e, 0xba2ebac30dc386b0, 0xedd383831354b495),
    (0x0000000000000000, 0x0000000000000000, 0x0000000000000000, 0x0000000000000000),
    (0x0000000000000000, 0x0000000000000000, 0x0000000000000000, 0x0000000000000000),
    (0x0f5e3a8566be31b7, 0x564ca60461e9e08b, 0x19828764a9669bc1, 0x7aba0b97e66b0109),
    (0x0000000000000000, 0x0000000000000000, 0x0000000000000000, 0x0000000000000000),
    (0x0000000000000000, 0x0000000000000000, 0x0000000000000000, 0x0000000000000000),
    (0x18df6a9d19ea90d8, 0x95e60e4db0794a01, 0xf359a53a180b7d4b, 0x42bf3d7a531c976e),
    (0x0000000000000000, 0x0000000000000000, 0x0000000000000000, 0x0000000000000000),
    (0x0000000000000000, 0x0000000000000000, 0x0000000000000000, 0x0000000000000000),
    (0x04f7bf2c5c0538ac, 0x6e4b782c3c6e601a, 0xd0ea1d3a3b9d25ef, 0x4e324055fa3123dc),
    (0x0000000000000000, 0x0000000000000000, 0x0000000000000000, 0x0000000000000000),
    (0x0000000000000000, 0x0000000000000000, 0x0000000000000000, 0x0000000000000000),
    (0x29c76ce22255206e, 0x3c40058523748531, 0xe770c0584aa2328c, 0xe55d54628b89ebe6),
    (0x0000000000000000, 0x0000000000000000, 0x0000000000000000, 0x0000000000000000),
    (0x0000000000000000, 0x0000000000000000, 0x0000000000000000, 0x0000000000000000),
    (0x198d425a45b78e85, 0xc053659ab4347f5d, 0x65b1b8e9c6108dbe, 0x00e0e945dbc5ff15),
    (0x0000000000000000, 0x0000000000000000, 0x0000000000000000, 0x0000000000000000),
    (0x0000000000000000, 0x0000000000000000, 0x0000000000000000, 0x0000000000000000),
    (0x25ee27ab6296cd5e, 0x6af3cc79c598a1da, 0xa7ff7f6878b3c49d, 0x49d3a9a90c3fdf74),
    (0x0000000000000000, 0x0000000000000000, 0x0000000000000000, 0x0000000000000000),
    (0x0000000000000000, 0x0000000000000000, 0x0000000000000000, 0x0000000000000000),
    (0x138ea8e0af41a1e0, 0x24561001c0b6eb15, 0x05845d7d0c55b1b2, 0xc0f88687a96d1381),
    (0x0000000000000000, 0x0000000000000000, 0x0000000000000000, 0x0000000000000000),
    (0x0000000000000000, 0x0000000000000000, 0x0000000000000000, 0x0000000000000000),
    (0x306197fb3fab671e, 0xf6e7c2cba2eefd0e, 0x42851b5b9811f2ca, 0x4013370a01d95687),
    (0x0000000000000000, 0x0000000000000000, 0x0000000000000000, 0x0000000000000000),
    (0x0000000000000000, 0x0000000000000000, 0x0000000000000000, 0x0000000000000000),
    (0x1a0c7d52dc32a443, 0x2b66f0b4894d4f1a, 0x21db7565e5b42504, 0x86419eaf00e8f620),
    (0x0000000000000000, 0x0000000000000000, 0x0000000000000000, 0x0000000000000000),
    (0x0000000000000000, 0x0000000000000000, 0x0000000000000000, 0x0000000000000000),
    (0x2b46b418de80915f, 0x3ff86a8e5c8bdfcc, 0xebfbe5f55163cd6c, 0xaa52997da2c54a9f),
    (0x0000000000000000, 0x0000000000000000, 0x0000000000000000, 0x0000000000000000),
    (0x0000000000000000, 0x0000000000000000, 0x0000000000000000, 0x0000000000000000),
    (0x12d3e0dc00858737, 0x01f8b777b9673af9, 0x613a1af5db48e05b, 0xfb46e312b5829f64),
    (0x0000000000000000, 0x0000000000000000, 0x0000000000000000, 0x0000000000000000),
    (0x0000000000000000, 0x0000000000000000, 0x0000000000000000, 0x0000000000000000),
    (0x263390cf74dc3a88, 0x70f5002ed21d089f, 0xfb2bf768230f648d, 0xba338a5cb19b3a1f),
    (0x0000000000000000, 0x0000000000000000, 0x0000000000000000, 0x0000000000000000),
    (0x0000000000000000, 0x0000000000000000, 0x0000000000000000, 0x0000000000000000),
    (0x0a14f33a5fe668a6, 0x0ac884b4ca607ad0, 0xf8abb5af40f96f1d, 0x7d543db52b003dcd),
    (0x0000000000000000, 0x0000000000000000, 0x0000000000000000, 0x0000000000000000),
    (0x0000000000000000, 0x0000000000000000, 0x0000000000000000, 0x0000000000000000),
    (0x28ead9c586513eab, 0x1a5e86509d68b2da, 0x27be3a4f01171a1d, 0xd847df829bc683b9),
    (0x0000000000000000, 0x0000000000000000, 0x0000000000000000, 0x0000000000000000),
    (0x0000000000000000, 0x0000000000000000, 0x0000000000000000, 0x0000000000000000),
    (0x1c6ab1c328c3c643, 0x0972031f1bdb2ac9, 0x888f0ea1abe71cff, 0xea16cda6e1a7416c),
    (0x0000000000000000, 0x0000000000000000, 0x0000000000000000, 0x0000000000000000),
    (0x0000000000000000, 0x0000000000000000, 0x0000000000000000, 0x0000000000000000),
    (0x1fc7e71bc0b81979, 0x2b2500239f7f8de0, 0x4f6decd608cb98a9, 0x32346015c5b42c94),
    (0x0000000000000000, 0x0000000000000000, 0x0000000000000000, 0x0000000000000000),
    (0x0000000000000000, 0x0000000000000000, 0x0000000000000000, 0x0000000000000000),
    (0x03e107eb3a42b2ec, 0xe380e0d860298f17, 0xc0c1e197c952650e, 0xe6dd85b93a0ddaa8),
    (0x0000000000000000, 0x0000000000000000, 0x0000000000000000, 0x0000000000000000),
    (0x0000000000000000, 0x0000000000000000, 0x0000000000000000, 0x0000000000000000),
    (0x2d354a251f381a46, 0x69c0d52bf88b772c, 0x46452ca57c08697f, 0x454505f6941d78cd),
    (0x0000000000000000, 0x0000000000000000, 0x0000000000000000, 0x0000000000000000),
    (0x0000000000000000, 0x0000000000000000, 0x0000000000000000, 0x0000000000000000),
    (0x094af88ab05d94ba, 0xf687ef14bc566d1c, 0x522551d61606eda3, 0xd14b4606826f794b),
    (0x0000000000000000, 0x0000000000000000, 0x0000000000000000, 0x0000000000000000),
    (0x0000000000000000, 0x0000000000000000, 0x0000000000000000, 0x0000000000000000),
    (0x19705b783bf3d2dc, 0x19bcaeabf02f8ca5, 0xe1ab5b6f2e3195a9, 0xd52b2d249d1396f7),
    (0x0000000000000000, 0x0000000000000000, 0x0000000000000000, 0x0000000000000000),
    (0x0000000000000000, 0x0000000000000000, 0x0000000000000000, 0x0000000000000000),
    (0x09bf4acc3a8bce3f, 0x1fcc33fee54fc5b2, 0x8723b16b7d740a3e, 0x60cef6852271200e),
    (0x0000000000000000, 0x0000000000000000, 0x0000000000000000, 0x0000000000000000),
    (0x0000000000000000, 0x0000000000000000, 0x0000000000000000, 0x0000000000000000),
    (0x1803f8200db6013c, 0x50f83c0c8fab6284, 0x3413732f301f7058, 0x543a073f3f3b5e4e),
    (0x0000000000000000, 0x0000000000000000, 0x0000000000000000, 0x0000000000000000),
    (0x0000000000000000, 0x0000000000000000, 0x0000000000000000, 0x0000000000000000),
    (0x0f80afb5046244de, 0x30595b160b8d1f38, 0xbf6fb02d4454c0ad, 0xd41f7fef2faf3e5c),
    (0x0000000000000000, 0x0000000000000000, 0x0000000000000000, 0x0000000000000000),
    (0x0000000000000000, 0x0000000000000000, 0x0000000000000000, 0x0000000000000000),
    (0x126ee1f8504f15c3, 0xd77f0088c1cfc964, 0xabcfcf643f4a6fea, 0x7dc3f98219529d78),
    (0x0000000000000000, 0x0000000000000000, 0x0000000000000000, 0x0000000000000000),
    (0x0000000000000000, 0x0000000000000000, 0x0000000000000000, 0x0000000000000000),
    (0x23c203d10cfcc60f, 0x69bfb3d919552ca1, 0x0ffb4ee63175ddf8, 0xef86f991d7d0a591),
    (0x0000000000000000, 0x0000000000000000, 0x0000000000000000, 0x0000000000000000),
    (0x0000000000000000, 0x0000000000000000, 0x0000000000000000, 0x0000000000000000),
    (0x2a2ae15d8b143709, 0xec0d09705fa3a630, 0x3dec1ee4eec2cf74, 0x7c5a339f7744fb94),
    (0x0000000000000000, 0x0000000000000000, 0x0000000000000000, 0x0000000000000000),
    (0x0000000000000000, 0x0000000000000000, 0x0000000000000000, 0x0000000000000000),
    (0x07b60dee586ed6ef, 0x47e5c381ab6343ec, 0xc3d3b3006cb461bb, 0xb6b5d89081970b2b),
    (0x0000000000000000, 0x0000000000000000, 0x0000000000000000, 0x0000000000000000),
    (0x0000000000000000, 0x0000000000000000, 0x0000000000000000, 0x0000000000000000),
    (0x27316b559be3edfd, 0x885d95c494c1ae3d, 0x8a98a320baa7d152, 0x132cfe583c9311bd),
    (0x0000000000000000, 0x0000000000000000, 0x0000000000000000, 0x0000000000000000),
    (0x0000000000000000, 0x0000000000000000, 0x0000000000000000, 0x0000000000000000),
    (0x1d5c49ba157c32b8, 0xd8937cb2d3f84311, 0xef834cc2a743ed66, 0x2f5f9af0c0342e76),
    (0x0000000000000000, 0x0000000000000000, 0x0000000000000000, 0x0000000000000000),
    (0x0000000000000000, 0x0000000000000000, 0x0000000000000000, 0x0000000000000000),
    (0x2f8b124e78163b2f, 0x332774e0b850b5ec, 0x09c01bf6979938f6, 0x7c24bd5940968488),
    (0x0000000000000000, 0x0000000000000000, 0x0000000000000000, 0x0000000000000000),
    (0x0000000000000000, 0x0000000000000000, 0x0000000000000000, 0x0000000000000000),
    (0x1e6843a5457416b6, 0xdc5b7aa09a9ce21b, 0x1d4cba6554e51d84, 0x665f75260113b3d5),
    (0x0000000000000000, 0x0000000000000000, 0x0000000000000000, 0x0000000000000000),
    (0x0000000000000000, 0x0000000000000000, 0x0000000000000000, 0x0000000000000000),
    (0x11cdf00a35f650c5, 0x5fca25c9929c8ad9, 0xa68daf9ac6a189ab, 0x1f5bc79f21641d4b),
    (0x0000000000000000, 0x0000000000000000, 0x0000000000000000, 0x0000000000000000),
    (0x0000000000000000, 0x0000000000000000, 0x0000000000000000, 0x0000000000000000),
    (0x21632de3d3bbc5e4, 0x2ef36e588158d6d4, 0x608b2815c77355b7, 0xe82b5b9b7eb560bc),
    (0x0000000000000000, 0x0000000000000000, 0x0000000000000000, 0x0000000000000000),
    (0x0000000000000000, 0x0000000000000000, 0x0000000000000000, 0x0000000000000000),
    (0x0de625758452efbd, 0x97b27025fbd245e0, 0x255ae48ef2a329e4, 0x49d7b5c51c18498a),
    (0x0000000000000000, 0x0000000000000000, 0x0000000000000000, 0x0000000000000000),
    (0x0000000000000000, 0x0000000000000000, 0x0000000000000000, 0x0000000000000000),
    (0x2ad253c053e75213, 0xe2febfd4d976cc01, 0xdd9e1e1c6f0fb6b0, 0x9b09546ba0838098),
    (0x0000000000000000, 0x0000000000000000, 0x0000000000000000, 0x0000000000000000),
    (0x0000000000000000, 0x0000000000000000, 0x0000000000000000, 0x0000000000000000),
    (0x1d6b169ed63872dc, 0x6ec7681ec39b3be9, 0x3dd49cdd13c813b7, 0xd35702e38d60b077),
    (0x0000000000000000, 0x0000000000000000, 0x0000000000000000, 0x0000000000000000),
    (0x0000000000000000, 0x0000000000000000, 0x0000000000000000, 0x0000000000000000),
    (0x1660b740a143664b, 0xb9127c4941b67fed, 0x0be3ea70a24d5568, 0xc3a54e706cfef7fe),
    (0x0000000000000000, 0x0000000000000000, 0x0000000000000000, 0x0000000000000000),
    (0x0000000000000000, 0x0000000000000000, 0x0000000000000000, 0x0000000000000000),
    (0x0065a92d1de81f34, 0x114f4ca2deef76e0, 0xceacdddb12cf8790, 0x96a29f10376ccbfe),
    (0x0000000000000000, 0x0000000000000000, 0x0000000000000000, 0x0000000000000000),
    (0x0000000000000000, 0x0000000000000000, 0x0000000000000000, 0x0000000000000000),
    (0x1f11f06520253598, 0x7367f823da7d672c, 0x353ebe2ccbc4869b, 0xcf30d50a5871040d),
    (0x0000000000000000, 0x0000000000000000, 0x0000000000000000, 0x0000000000000000),
    (0x0000000000000000, 0x0000000000000000, 0x0000000000000000, 0x0000000000000000),
    (0x26596f5c5dd5a5d1, 0xb437ce7b14a2c3dd, 0x3bd1d1a39b6759ba, 0x110852d17df0693e),
    (0x0000000000000000, 0x0000000000000000, 0x0000000000000000, 0x0000000000000000),
    (0x0000000000000000, 0x0000000000000000, 0x0000000000000000, 0x0000000000000000),
    (0x16f49bc727e45a2f, 0x7bf3056efcf8b6d3, 0x8539c4163a5f1e70, 0x6743db15af91860f),
    (0x0000000000000000, 0x0000000000000000, 0x0000000000000000, 0x0000000000000000),
    (0x0000000000000000, 0x0000000000000000, 0x0000000000000000, 0x0000000000000000),
    (0x1abe1deb45b3e311, 0x9954175efb331bf4, 0x568feaf7ea8b3dc5, 0xe1a4e7438dd39e5f),
    (0x0000000000000000, 0x0000000000000000, 0x0000000000000000, 0x0000000000000000),
    (0x0000000000000000, 0x0000000000000000, 0x0000000000000000, 0x0000000000000000),
    (0x0e426ccab66984d1, 0xd8993a74ca548b77, 0x9f5db92aaec5f102, 0x020d34aea15fba59),
    (0x0000000000000000, 0x0000000000000000, 0x0000000000000000, 0x0000000000000000),
    (0x0000000000000000, 0x0000000000000000, 0x0000000000000000, 0x0000000000000000),
    (0x0e7c30c2e2e8957f, 0x4933bd1942053f1f, 0x0071684b902d534f, 0xa841924303f6a6c6),
    (0x0000000000000000, 0x0000000000000000, 0x0000000000000000, 0x0000000000000000),
    (0x0000000000000000, 0x0000000000000000, 0x0000000000000000, 0x0000000000000000),
    (0x0812a017ca92cf0a, 0x1622708fc7edff1d, 0x6166ded6e3528ead, 0x4c76e1f31d3fc69d),
    (0x0000000000000000, 0x0000000000000000, 0x0000000000000000, 0x0000000000000000),
    (0x0000000000000000, 0x0000000000000000, 0x0000000000000000, 0x0000000000000000),
    (0x21a5ade3df2bc1b5, 0xbba949d1db960400, 0x68afe5026edd7a9c, 0x2e276b47cf010d54),
    (0x0000000000000000, 0x0000000000000000, 0x0000000000000000, 0x0000000000000000),
    (0x0000000000000000, 0x0000000000000000, 0x0000000000000000, 0x0000000000000000),
    (0x01f3035463816c84, 0xad711bf1a058c6c6, 0xbd101945f50e5afe, 0x72b1a5233f8749ce),
    (0x0000000000000000, 0x0000000000000000, 0x0000000000000000, 0x0000000000000000),
    (0x0000000000000000, 0x0000000000000000, 0x0000000000000000, 0x0000000000000000),
    (0x0b115572f038c0e2, 0x028c2aafc2d06a5e, 0x8bf2f9398dbd0fdf, 0x4dcaa82b0f0c1c8b),
    (0x0000000000000000, 0x0000000000000000, 0x0000000000000000, 0x0000000000000000),
    (0x0000000000000000, 0x0000000000000000, 0x0000000000000000, 0x0000000000000000),
    (0x1c38ec0b99b62fd4, 0xf0ef255543f50d2e, 0x27fc24db42bc910a, 0x3460613b6ef59e2f),
    (0x0000000000000000, 0x0000000000000000, 0x0000000000000000, 0x0000000000000000),
    (0x0000000000000000, 0x0000000000000000, 0x0000000000000000, 0x0000000000000000),
    (0x1c89c6d9666272e8, 0x425c3ff1f4ac737b, 0x2f5d314606a297d4, 0xb1d0b254d880c53e),
    (0x0000000000000000, 0x0000000000000000, 0x0000000000000000, 0x0000000000000000),
    (0x0000000000000000, 0x0000000000000000, 0x0000000000000000, 0x0000000000000000),
    (0x03326e643580356b, 0xf6d44008ae4c042a, 0x21ad4880097a5eb3, 0x8b71e2311bb88f8f),
    (0x0000000000000000, 0x0000000000000000, 0x0000000000000000, 0x0000000000000000),
    (0x0000000000000000, 0x0000000000000000, 0x0000000000000000, 0x0000000000000000),
    (0x268076b0054fb73f, 0x67cee9ea0e51e3ad, 0x50f27a6434b5dceb, 0x5bdde2299910a4c9),
    (0x0000000000000000, 0x0000000000000000, 0x0000000000000000, 0x0000000000000000),
    (0x0000000000000000, 0x0000000000000000, 0x0000000000000000, 0x0000000000000000),
    (0x1acd63c67fbc9ab1, 0x626ed93491bda32e, 0x5da18ea9d8e4f101, 0x78d04aa6f8747ad0),
    (0x19f8a5d670e8ab66, 0xc4e3144be58ef690, 0x1bf93375e2323ec3, 0xca8c86cd2a28b5a5),
    (0x1c0dc443519ad7a8, 0x6efa40d2df10a011, 0x068193ea51f6c92a, 0xe1cfbb5f7b9b6893),
    (0x14b39e7aa4068dbe, 0x50fe7190e421dc19, 0xfbeab33cb4f6a2c4, 0x180e4c3224987d3d),
    (0x1d449b71bd826ec5, 0x8f28c63ea6c561b7, 0xb820fc519f01f021, 0xafb1e35e28b0795e),
    (0x1ea2c9a89baaddbb, 0x60fa97fe60fe9d8e, 0x89de141689d12522, 0x76524dc0a9e987fc),
    (0x0478d66d43535a8c, 0xb57e9c1c3d6a2bd7, 0x591f9a46a0e9c058, 0x134d5cefdb3c7ff1),
    (0x19272db71eece6a6, 0xf608f3b2717f9cd2, 0x662e26ad86c400b2, 0x1cde5e4a7b00bebe),
    (0x14226537335cab33, 0xc749c746f09208ab, 0xb2dd1bd66a87ef75, 0x039be846af134166),
    (0x01fd6af15956294f, 0x9dfe38c0d976a088, 0xb21c21e4a1c2e823, 0xf912f44961f9a9ce),
    (0x18e5abedd626ec30, 0x7bca190b8b2cab1a, 0xaee2e62ed229ba5a, 0x5ad8518d4e5f2a57),
    (0x0fc1bbceba0590f5, 0xabbdffa6d3b35e32, 0x97c021a3a409926d, 0x0e2d54dc1c84fda6),
];

/// The diagonal of the internal matrix, less the identity, for BN254 and width 4.
pub const MAT_DIAG_BN254_T_4: [Limbs; 4] = [
    (0x10dc6e9c006ea38b, 0x04b1e03b4bd9490c, 0x0d03f98929ca1d7f, 0xb56821fd19d3b6e7),
    (0x0c28145b6a44df3e, 0x0149b3d0a30b3bb5, 0x99df9756d4dd9b84, 0xa86b38cfb45a740b),
    (0x00544b8338791518, 0xb2c7645a50392798, 0xb21f75bb60e35961, 0x70067d00141cac15),
    (0x222c01175718386f, 0x2e2e82eb122789e3, 0x52e105a3b8fa8526, 0x13bc534433ee428b),
];

/// The round constants for BN254 and width 4, round after round.
pub const RC_BN254_T_4: [Limbs; 256] = [
    (0x19b849f69450b068, 0x48da1d39bd5e4a43, 0x02bb86744edc2623, 0x8b0878e269ed23e5),
    (0x265ddfe127dd51bd, 0x7239347b758f0a13, 0x20eb2cc7450acc1d, 0xad47f80c8dcf34d6),
    (0x199750ec472f1809, 0xe0f66a545e1e5162, 0x4108ac845015c2aa, 0x3dfc36bab497d8aa),
    (0x157ff3fe65ac7208, 0x110f06a5f74302b1, 0x4d743ea25067f0ff, 0xd032f787c7f1cdf8),
    (0x2e49c43c4569dd9c, 0x5fd35ac45fca33f1, 0x0b15c590692f8bee, 0xfe18f4896ac94902),
    (0x0e35fb8998189052, 0x0d4aef2b6d6506c3, 0xcb2f0b6973c24fa8, 0x2731345ffa2d1f1e),
    (0x251ad47cb15c4f11, 0x05f109ae5e944f1b, 0xa9d9e7806d667ffe, 0xc6fe723002e0b996),
    (0x13da07dc64d42836, 0x9873e97160234641, 0xf8beb56fdd05e5f3, 0x563fa39d9c22df4e),
    (0x0c009b84e650e6d2, 0x3dc00c7dccef7483, 0xa553939689d350cd, 0x46e7b89055fd4738),
    (0x011f16b1c63a854f, 0x01992e3956f42d8b, 0x04eb650c6d535eb0, 0x203dec74befdca06),
    (0x0ed69e5e383a688f, 0x209d9a561daa7961, 0x2f3f78d0467ad454, 0x85df07093f367549),
    (0x04dba94a7b0ce9e2, 0x21acad41472b6bbe, 0x3aec507f5eb3d33f, 0x463672264c9f789b),
    (0x0a3f2637d840f3a1, 0x6eb094271c9d237b, 0x6036757d4bb50bf7, 0xce732ff1d4fa28e8),
    (0x259a666f129eea19, 0x8f8a1c502fdb38fa, 0x39b1f075569564b6, 0xe54a485d1182323f),
    (0x28bf7459c9b2f4c6, 0xd8e7d06a4ee3a47f, 0x7745d4271038e515, 0x7a32fdf7ede0d6a1),
    (0x0a1ca941f0570375, 0x26ea200f489be8d4, 0xc37c85bbcce6a2ae, 0xec91bd6941432447),
    (0x0c6f8f958be0e930, 0x53d7fd4fc5451285, 0x5535ed1539f051dc, 0xb43a26fd926361cf),
    (0x0000000000000000, 0x0000000000000000, 0x0000000000000000, 0x0000000000000000),
    (0x0000000000000000, 0x0000000000000000, 0x0000000000000000, 0x0000000000000000),
    (0x0000000000000000, 0x0000000000000000, 0x0000000000000000, 0x0000000000000000),
    (0x123106a93cd17578, 0xd426e8128ac9d90a, 0xa9e8a00708e296e0, 0x84dd57e69caaf811),
    (0x0000000000000000, 0x0000000000000000, 0x0000000000000000, 0x0000000000000000),
    (0x0000000000000000, 0x0000000000000000, 0x0000000000000000, 0x0000000000000000),
    (0x0000000000000000, 0x0000000000000000, 0x0000000000000000, 0x0000000000000000),
    (0x26e1ba52ad9285d9, 0x7dd3ab52f8e84008, 0x5e8fa83ff1e8f187, 0x7b074867cd2dee75),
    (0x0000000000000000, 0x0000000000000000, 0x0000000000000000, 0x0000000000000000),
    (0x0000000000000000, 0x0000000000000000, 0x0000000000000000, 0x0000000000000000),
    (0x0000000000000000, 0x0000000000000000, 0x0000000000000000, 0x0000000000000000),
    (0x1cb55cad7bd133de, 0x18a64c5c47b9c97c, 0xbe4d8b7bf9e09586, 0x4471537e6a4ae2c5),
    (0x0000000000000000, 0x0000000000000000, 0x0000000000000000, 0x0000000000000000),
    (0x0000000000000000, 0x0000000000000000, 0x0000000000000000, 0x0000000000000000),
    (0x0000000000000000, 0x0000000000000000, 0x0000000000000000, 0x0000000000000000),
    (0x1dcd73e46acd8f8e, 0x0e2c7ce04bde7f6d, 0x2a53043d5060a41c, 0x7143f08e6e9055d0),
    (0x0000000000000000, 0x0000000000000000, 0x0000000000000000, 0x0000000000000000),
    (0x0000000000000000, 0x0000000000000000, 0x0000000000000000, 0x0000000000000000),
    (0x0000000000000000, 0x0000000000000000, 0x0000000000000000, 0x0000000000000000),
    (0x011003e32f6d9c66, 0xf5852f05474a4def, 0x0cda294a0eb4e9b9, 0xb12b9bb4512e5574),
    (0x0000000000000000, 0x0000000000000000, 0x0000000000000000, 0x0000000000000000),
    (0x0000000000000000, 0x0000000000000000, 0x0000000000000000, 0x0000000000000000),
    (0x0000000000000000, 0x0000000000000000, 0x0000000000000000, 0x0000000000000000),
    (0x2b1e809ac1d10ab2, 0x9ad5f20d03a57dfe, 0xbadfe5903f58bafe, 0xd7c508dd2287ae8c),
    (0x0000000000000000, 0x0000000000000000, 0x0000000000000000, 0x0000000000000000),
    (0x0000000000000000, 0x0000000000000000, 0x0000000000000000, 0x0000000000000000),
    (0x0000000000000000, 0x0000000000000000, 0x0000000000000000, 0x0000000000000000),
    (0x2539de1785b73599, 0x9fb4dac35ee17ed0, 0xef995d05ab2fc5fa, 0xeaa69ae87bcec0a5),
    (0x0000000000000000, 0x0000000000000000, 0x0000000000000000, 0x0000000000000000),
    (0x0000000000000000, 0x0000000000000000, 0x0000000000000000, 0x0000000000000000),
    (0x0000000000000000, 0x0000000000000000, 0x0000000000000000, 0x0000000000000000),
    (0x0c246c5a2ef8ee01, 0x26497f222b3e0a0e, 0xf4e1c3d41c86d46e, 0x43982cb11d77951d),
    (0x0000000000000000, 0x0000000000000000, 0x0000000000000000, 0x0000000000000000),
    (0x0000000000000000, 0x0000000000000000, 0x0000000000000000, 0x0000000000000000),
    (0x0000000000000000, 0x0000000000000000, 0x0000000000000000, 0x0000000000000000),
    (0x192089c4974f68e9, 0x5408148f7c0632ed, 0xbb09e6a6ad1a1c2f, 0x3f0305f5d03b527b),
    (0x0000000000000000, 0x0000000000000000, 0x0000000000000000, 0x0000000000000000),
    (0x0000000000000000, 0x0000000000000000, 0x0000000000000000, 0x0000000000000000),
    (0x0000000000000000, 0x0000000000000000, 0x0000000000000000, 0x0000000000000000),
    (0x1eae0ad8ab68b2f0, 0x6a0ee36eeb0d0c05, 0x8529097d91096b75, 0x6d8fdc2fb5a60d85),
    (0x0000000000000000, 0x0000000000000000, 0x0000000000000000, 0x0000000000000000),
    (0x0000000000000000, 0x0000000000000000, 0x0000000000000000, 0x0000000000000000),
    (0x0000000000000000, 0x0000000000000000, 0x0000000000000000, 0x0000000000000000),
    (0x179190e5d0e22179, 0xe46f8282872abc88, 0xdb6e2fdc0dee99e6, 0x9768bd98c5d06bfb),
    (0x0000000000000000, 0x0000000000000000, 0x0000000000000000, 0x0000000000000000),
    (0x0000000000000000, 0x0000000000000000, 0x0000000000000000, 0x0000000000000000),
    (0x0000000000000000, 0x0000000000000000, 0x0000000000000000, 0x0000000000000000),
    (0x29bb9e2c90767325, 0x76e9a81c7ac4b832, 0x14528f7db00f31bf, 0x6cafe794a9b3cd1c),
    (0x0000000000000000, 0x0000000000000000, 0x0000000000000000, 0x0000000000000000),
    (0x0000000000000000, 0x0000000000000000, 0x0000000000000000, 0x0000000000000000),
    (0x0000000000000000, 0x0000000000000000, 0x0000000000000000, 0x0000000000000000),
    (0x225d394e42207599, 0x403efd0c2464a90d, 0x52652645882aac35, 0xb10e590e6e691e08),
    (0x0000000000000000, 0x0000000000000000, 0x0000000000000000, 0x0000000000000000),
    (0x0000000000000000, 0x0000000000000000, 0x0000000000000000, 0x0000000000000000),
    (0x0000000000000000, 0x0000000000000000, 0x0000000000000000, 0x0000000000000000),
    (0x064760623c25c8cf, 0x753d238055b44453, 0x2be13557451c087d, 0xe09efd454b23fd59),
    (0x0000000000000000, 0x0000000000000000, 0x0000000000000000, 0x0000000000000000),
    (0x0000000000000000, 0x0000000000000000, 0x0000000000000000, 0x0000000000000000),
    (0x0000000000000000, 0x0000000000000000, 0x0000000000000000, 0x0000000000000000),
    (0x10ba3a0e01df92e8, 0x7f301c4b716d8a39, 0x4d67f4bf42a75c10, 0x922910a78f6b5b87),
    (0x0000000000000000, 0x0000000000000000, 0x0000000000000000, 0x0000000000000000),
    (0x0000000000000000, 0x0000000000000000, 0x0000000000000000, 0x0000000000000000),
    (0x0000000000000000, 0x0000000000000000, 0x0000000000000000, 0x0000000000000000),
    (0x0e070bf53f8451b2, 0x4f9c6e96b0c2a801, 0xcb511bc0c242eb9d, 0x361b77693f21471c),
    (0x0000000000000000, 0x0000000000000000, 0x0000000000000000, 0x0000000000000000),
    (0x0000000000000000, 0x0000000000000000, 0x0000000000000000, 0x0000000000000000),
    (0x0000000000000000, 0x0000000000000000, 0x0000000000000000, 0x0000000000000000),
    (0x1b94cd61b051b04d, 0xd39755ff93821a73, 0xccd6cb11d2491d8a, 0xa7f921014de252fb),
    (0x0000000000000000, 0x0000000000000000, 0x0000000000000000, 0x0000000000000000),
    (0x0000000000000000, 0x0000000000000000, 0x0000000000000000, 0x0000000000000000),
    (0x0000000000000000, 0x0000000000000000, 0x0000000000000000, 0x0000000000000000),
    (0x1d7cb39bafb8c744, 0xe148787a2e70230f, 0x9d4e917d5713bb05, 0x0487b5aa7d74070b),
    (0x0000000000000000, 0x0000000000000000, 0x0000000000000000, 0x0000000000000000),
    (0x0000000000000000, 0x0000000000000000, 0x0000000000000000, 0x0000000000000000),
    (0x0000000000000000, 0x0000000000000000, 0x0000000000000000, 0x0000000000000000),
    (0x2ec93189bd1ab4f6, 0x9117d0fe980c80ff, 0x8785c2961829f701, 0xbb74ac1f303b17db),
    (0x0000000000000000, 0x0000000000000000, 0x0000000000000000, 0x0000000000000000),
    (0x0000000000000000, 0x0000000000000000, 0x0000000000000000, 0x0000000000000000),
    (0x0000000000000000, 0x0000000000000000, 0x0000000000000000, 0x0000000000000000),
    (0x2db366bfdd36d277, 0xa692bb825b86275b, 0xeac404a19ae07a90, 0x82ea46bd83517926),
    (0x0000000000000000, 0x0000000000000000, 0x0000000000000000, 0x0000000000000000),
    (0x0000000000000000, 0x0000000000000000, 0x0000000000000000, 0x0000000000000000),
    (0x0000000000000000, 0x0000000000000000, 0x0000000000000000, 0x0000000000000000),
    (0x062100eb485db062, 0x69655cf186a68532, 0x985275428450359a, 0xdc99cec6960711b8),
    (0x0000000000000000, 0x0000000000000000, 0x0000000000000000, 0x0000000000000000),
    (0x0000000000000000, 0x0000000000000000, 0x0000000000000000, 0x0000000000000000),
    (0x0000000000000000, 0x0000000000000000, 0x0000000000000000, 0x0000000000000000),
    (0x0761d33c66614aaa, 0x570e7f1e8244ca11, 0x20243f92fa59e4f9, 0x00c567bf41f5a59b),
    (0x0000000000000000, 0x0000000000000000, 0x0000000000000000, 0x0000000000000000),
    (0x0000000000000000, 0x0000000000000000, 0x0000000000000000, 0x0000000000000000),
    (0x0000000000000000, 0x0000000000000000, 0x0000000000000000, 0x0000000000000000),
    (0x20fc411a114d1399, 0x2c2705aa034e3f31, 0x5d78608a0f7de4cc, 0xf7a72e494855ad0d),
    (0x0000000000000000, 0x0000000000000000, 0x0000000000000000, 0x0000000000000000),
    (0x0000000000000000, 0x0000000000000000, 0x0000000000000000, 0x0000000000000000),
    (0x0000000000000000, 0x0000000000000000, 0x0000000000000000, 0x0000000000000000),
    (0x25b5c004a4bdfcb5, 0xadd9ec4e9ab219ba, 0x102c67e8b3effb5f, 0xc3a30f317250bc5a),
    (0x0000000000000000, 0x0000000000000000, 0x0000000000000000, 0x0000000000000000),
    (0x0000000000000000, 0x0000000000000000, 0x0000000000000000, 0x0000000000000000),
    (0x0000000000000000, 0x0000000000000000, 0x0000000000000000, 0x0000000000000000),
    (0x23b1822d278ed632, 0xa494e58f6df6f5ed, 0x038b186d8474155a, 0xd87e7dff62b37f4b),
    (0x0000000000000000, 0x0000000000000000, 0x0000000000000000, 0x0000000000000000),
    (0x0000000000000000, 0x0000000000000000, 0x0000000000000000, 0x0000000000000000),
    (0x0000000000000000, 0x0000000000000000, 0x0000000000000000, 0x0000000000000000),
    (0x22734b4c5c3f9493, 0x606c4ba9012499bf, 0x0f14d13bfcfcccaa, 0x16102a29cc2f69e0),
    (0x0000000000000000, 0x0000000000000000, 0x0000000000000000, 0x0000000000000000),
    (0x0000000000000000, 0x0000000000000000, 0x0000000000000000, 0x0000000000000000),
    (0x0000000000000000, 0x0000000000000000, 0x0000000000000000, 0x0000000000000000),
    (0x26c0c8fe09eb30b7, 0xe27a74dc33492347, 0xe5bdff409aa36102, 0x54413d3fad795ce5),
    (0x0000000000000000, 0x0000000000000000, 0x0000000000000000, 0x0000000000000000),
    (0x0000000000000000, 0x0000000000000000, 0x0000000000000000, 0x0000000000000000),
    (0x0000000000000000, 0x0000000000000000, 0x0000000000000000, 0x0000000000000000),
    (0x070dd0ccb6bd7bba, 0xe88eac03fa1fbb26, 0x196be3083a809829, 0xbbd626df348ccad9),
    (0x0000000000000000, 0x0000000000000000, 0x0000000000000000, 0x0000000000000000),
    (0x0000000000000000, 0x0000000000000000, 0x0000000000000000, 0x0000000000000000),
    (0x0000000000000000, 0x0000000000000000, 0x0000000000000000, 0x0000000000000000),
    (0x12b6595bdb329b6f, 0xb043ba78bb28c3be, 0xc2c0a6de46d8c5ad, 0x6067c4ebfd4250da),
    (0x0000000000000000, 0x0000000000000000, 0x0000000000000000, 0x0000000000000000),
    (0x0000000000000000, 0x0000000000000000, 0x0000000000000000, 0x0000000000000000),
    (0x0000000000000000, 0x0000000000000000, 0x0000000000000000, 0x0000000000000000),
    (0x248d97d7f76283d6, 0x3bec30e7a5876c11, 0xc06fca9b275c671c, 0x5e33d95bb7e8d729),
    (0x0000000000000000, 0x0000000000000000, 0x0000000000000000, 0x0000000000000000),
    (0x0000000000000000, 0x0000000000000000, 0x0000000000000000, 0x0000000000000000),
    (0x0000000000000000, 0x0000000000000000, 0x0000000000000000, 0x0000000000000000),
    (0x1a306d439d463b08, 0x16fc6fd64cc93931, 0x8b45eb759ddde4aa, 0x106d15d9bd9baaaa),
    (0x0000000000000000, 0x0000000000000000, 0x0000000000000000, 0x0000000000000000),
    (0x0000000000000000, 0x0000000000000000, 0x0000000000000000, 0x0000000000000000),
    (0x0000000000000000, 0x0000000000000000, 0x0000000000000000, 0x0000000000000000),
    (0x28a8f8372e3c38da, 0xced7c00421cb4621, 0xf4f1b54ddc27821b, 0x0d62d3d6ec7c56cf),
    (0x0000000000000000, 0x0000000000000000, 0x0000000000000000, 0x0000000000000000),
    (0x0000000000000000, 0x0000000000000000, 0x0000000000000000, 0x0000000000000000),
    (0x0000000000000000, 0x0000000000000000, 0x0000000000000000, 0x0000000000000000),
    (0x0094975717f9a8a8, 0xbb35152f24d43294, 0x071ce320c829f388, 0xbc852183e1e2ce7e),
    (0x0000000000000000, 0x0000000000000000, 0x0000000000000000, 0x0000000000000000),
    (0x0000000000000000, 0x0000000000000000, 0x0000000000000000, 0x0000000000000000),
    (0x0000000000000000, 0x0000000000000000, 0x0000000000000000, 0x0000000000000000),
    (0x04d5ee4c3aa78f7d, 0x80fde60d716480d3, 0x593f74d4f653ae83, 0xf4103246db2e8d65),
    (0x0000000000000000, 0x0000000000000000, 0x0000000000000000, 0x0000000000000000),
    (0x0000000000000000, 0x0000000000000000, 0x0000000000000000, 0x0000000000000000),
    (0x0000000000000000, 0x0000000000000000, 0x0000000000000000, 0x0000000000000000),
    (0x2a6cf5e9aa03d433, 0x6349ad6fb8ed2269, 0xc7bef54b8822cc76, 0xd08495c12efde187),
    (0x0000000000000000, 0x0000000000000000, 0x0000000000000000, 0x0000000000000000),
    (0x0000000000000000, 0x0000000000000000, 0x0000000000000000, 0x0000000000000000),
    (0x0000000000000000, 0x0000000000000000, 0x0000000000000000, 0x0000000000000000),
    (0x2304d31eaab960ba, 0x9274da43e19ddeb7, 0xf792180808fd6e43, 0xbaae48d7efcba3f3),
    (0x0000000000000000, 0x0000000000000000, 0x0000000000000000, 0x0000000000000000),
    (0x0000000000000000, 0x0000000000000000, 0x0000000000000000, 0x0000000000000000),
    (0x0000000000000000, 0x0000000000000000, 0x0000000000000000, 0x0000000000000000),
    (0x03fd9ac865a4b2a6, 0xd5e7009785817249, 0xbff08a7e0726fcb4, 0xe1c11d39d199f0b0),
    (0x0000000000000000, 0x0000000000000000, 0x0000000000000000, 0x0000000000000000),
    (0x0000000000000000, 0x0000000000000000, 0x0000000000000000, 0x0000000000000000),
    (0x0000000000000000, 0x0000000000000000, 0x0000000000000000, 0x0000000000000000),
    (0x00b7258ded52bbda, 0x2248404d55ee5044, 0x798afc3a20919307, 0x3f7954d4d63b0b64),
    (0x0000000000000000, 0x0000000000000000, 0x0000000000000000, 0x0000000000000000),
    (0x0000000000000000, 0x0000000000000000, 0x0000000000000000, 0x0000000000000000),
    (0x0000000000000000, 0x0000000000000000, 0x0000000000000000, 0x0000000000000000),
    (0x159f81ada0771799, 0xec38fca2d4bf65eb, 0xb13d3a74f3298db3, 0x6272c5ca65e92d9a),
    (0x0000000000000000, 0x0000000000000000, 0x0000000000000000, 0x0000000000000000),
    (0x0000000000000000, 0x0000000000000000, 0x0000000000000000, 0x0000000000000000),
    (0x0000000000000000, 0x0000000000000000, 0x0000000000000000, 0x0000000000000000),
    (0x1ef90e67437fbc85, 0x50237a75bc28e3bb, 0x9000130ea25f0c54, 0x71e144cf4264431f),
    (0x0000000000000000, 0x0000000000000000, 0x0000000000000000, 0x0000000000000000),
    (0x0000000000000000, 0x0000000000000000, 0x0000000000000000, 0x0000000000000000),
    (0x0000000000000000, 0x0000000000000000, 0x0000000000000000, 0x0000000000000000),
    (0x1e65f838515e5ff0, 0x196b49aa41a2d256, 0x8df739bc176b08ec, 0x95a79ed82932e30d),
    (0x0000000000000000, 0x0000000000000000, 0x0000000000000000, 0x0000000000000000),
    (0x0000000000000000, 0x0000000000000000, 0x0000000000000000, 0x0000000000000000),
    (0x0000000000000000, 0x0000000000000000, 0x0000000000000000, 0x0000000000000000),
    (0x2b1b045def3a166c, 0xec6ce768d079ba74, 0xb18c844e570e1f82, 0x6575c1068c94c33f),
    (0x0000000000000000, 0x0000000000000000, 0x0000000000000000, 0x0000000000000000),
    (0x0000000000000000, 0x0000000000000000, 0x0000000000000000, 0x0000000000000000),
    (0x0000000000000000, 0x0000000000000000, 0x0000000000000000, 0x0000000000000000),
    (0x0832e5753ceb0ff6, 0x402543b1109229c1, 0x65dc2d73bef715e3, 0xf1c6e07c168bb173),
    (0x0000000000000000, 0x0000000000000000, 0x0000000000000000, 0x0000000000000000),
    (0x0000000000000000, 0x0000000000000000, 0x0000000000000000, 0x0000000000000000),
    (0x0000000000000000, 0x0000000000000000, 0x0000000000000000, 0x0000000000000000),
    (0x02f614e9cedfb3dc, 0x6b762ae0a37d41ba, 0xb1b841c2e8b6451b, 0xc5a8e3c390b6ad16),
    (0x0000000000000000, 0x0000000000000000, 0x0000000000000000, 0x0000000000000000),
    (0x0000000000000000, 0x0000000000000000, 0x0000000000000000, 0x0000000000000000),
    (0x0000000000000000, 0x0000000000000000, 0x0000000000000000, 0x0000000000000000),
    (0x0e2427d38bd46a60, 0xdd640b8e362cad96, 0x7370ebb777bedff4, 0x0f6a0be27e7ed705),
    (0x0000000000000000, 0x0000000000000000, 0x0000000000000000, 0x0000000000000000),
    (0x0000000000000000, 0x0000000000000000, 0x0000000000000000, 0x0000000000000000),
    (0x0000000000000000, 0x0000000000000000, 0x0000000000000000, 0x0000000000000000),
    (0x0493630b7c670b6d, 0xeb7c84d414e7ce79, 0x049f0ec098c3c7c5, 0x0768bbe29214a53a),
    (0x0000000000000000, 0x0000000000000000, 0x0000000000000000, 0x0000000000000000),
    (0x0000000000000000, 0x0000000000000000, 0x0000000000000000, 0x0000000000000000),
    (0x0000000000000000, 0x0000000000000000, 0x0000000000000000, 0x0000000000000000),
    (0x22ead100e8e48267, 0x4decdab17066c5a2, 0x6bb1515355d5461a, 0x3dc06cc85327cea9),
    (0x0000000000000000, 0x0000000000000000, 0x0000000000000000, 0x0000000000000000),
    (0x0000000000000000, 0x0000000000000000, 0x0000000000000000, 0x0000000000000000),
    (0x0000000000000000, 0x0000000000000000, 0x0000000000000000, 0x0000000000000000),
    (0x25b3e56e655b42cd, 0xaae2626ed2554d48, 0x583f1ae35626d04d, 0xe5084e0b6d2a6f16),
    (0x0000000000000000, 0x0000000000000000, 0x0000000000000000, 0x0000000000000000),
    (0x0000000000000000, 0x0000000000000000, 0x0000000000000000, 0x0000000000000000),
    (0x0000000000000000, 0x0000000000000000, 0x0000000000000000, 0x0000000000000000),
    (0x1e32752ada8836ef, 0x5837a6cde8ff13db, 0xb599c336349e4c58, 0x4b4fdc0a0cf6f9d0),
    (0x0000000000000000, 0x0000000000000000, 0x0000000000000000, 0x0000000000000000),
    (0x0000000000000000, 0x0000000000000000, 0x0000000000000000, 0x0000000000000000),
    (0x0000000000000000, 0x0000000000000000, 0x0000000000000000, 0x0000000000000000),
    (0x2fa2a871c15a387c, 0xc50f68f6f3c3455b, 0x23c00995f05078f6, 0x72a9864074d412e5),
    (0x0000000000000000, 0x0000000000000000, 0x0000000000000000, 0x0000000000000000),
    (0x0000000000000000, 0x0000000000000000, 0x0000000000000000, 0x0000000000000000),
    (0x0000000000000000, 0x0000000000000000, 0x0000000000000000, 0x0000000000000000),
    (0x2f569b8a9a4424c9, 0x278e1db7311e889f, 0x54ccbf10661bab7f, 0xcd18e7c7a7d83505),
    (0x0000000000000000, 0x0000000000000000, 0x0000000000000000, 0x0000000000000000),
    (0x0000000000000000, 0x0000000000000000, 0x0000000000000000, 0x0000000000000000),
    (0x0000000000000000, 0x0000000000000000, 0x0000000000000000, 0x0000000000000000),
    (0x044cb455110a8fdd, 0x531ade530234c518, 0xa7df93f7332ffd21, 0x44165374b246b43d),
    (0x0000000000000000, 0x0000000000000000, 0x0000000000000000, 0x0000000000000000),
    (0x0000000000000000, 0x0000000000000000, 0x0000000000000000, 0x0000000000000000),
    (0x0000000000000000, 0x0000000000000000, 0x0000000000000000, 0x0000000000000000),
    (0x227808de93906d5d, 0x420246157f2e42b1, 0x91fe8c90adfe1181, 0x78ddc723a5319025),
    (0x0000000000000000, 0x0000000000000000, 0x0000000000000000, 0x0000000000000000),
    (0x0000000000000000, 0x0000000000000000, 0x0000000000000000, 0x0000000000000000),
    (0x0000000000000000, 0x0000000000000000, 0x0000000000000000, 0x0000000000000000),
    (0x02fcca2934e046bc, 0x623adead87357986, 0x5d03781ae090ad4a, 0x8579d2e7a6800355),
    (0x0000000000000000, 0x0000000000000000, 0x0000000000000000, 0x0000000000000000),
    (0x0000000000000000, 0x0000000000000000, 0x0000000000000000, 0x0000000000000000),
    (0x0000000000000000, 0x0000000000000000, 0x0000000000000000, 0x0000000000000000),
    (0x0ef915f0ac120b87, 0x6abccceb344a1d36, 0xbad3f3c5ab91a8dd, 0xcbec2e060d8befac),
    (0x0000000000000000, 0x0000000000000000, 0x0000000000000000, 0x0000000000000000),
    (0x0000000000000000, 0x0000000000000000, 0x0000000000000000, 0x0000000000000000),
    (0x0000000000000000, 0x0000000000000000, 0x0000000000000000, 0x0000000000000000),
    (0x1797130f4b7a3e17, 0x77eb757bc6f287f6, 0xab0fb85f6be63b09, 0xf3b16ef2b1405d38),
    (0x0a76225dc04170ae, 0x3306c85abab59e60, 0x8c7f497c20156d4d, 0x36c668555decc6e5),
    (0x1fffb9ec1992d66b, 0xa1e77a7b93209af6, 0xf8fa76d48acb6647, 0x96174b5326a31a5c),
    (0x25721c4fc15a3f28, 0x53b57c338fa538d8, 0x5f8fbba6c6b9c609, 0x0611889b797b9c5f),
    (0x0c817fd42d5f7a41, 0x215e3d07ba197216, 0xadb4c3790705da95, 0xeb63b982bfcaf75a),
    (0x13abe3f5239915d3, 0x9f7e13c2c24970b6, 0xdf8cf86ce00a2200, 0x2bc15866e52b5a96),
    (0x2106feea546224ea, 0x12ef7f39987a46c8, 0x5c1bc3dc29bdbd7a, 0x92cd60acb4d391ce),
    (0x21ca859468a746b6, 0xaaa79474a37dab49, 0xf1ca5a28c748bc71, 0x57e1b3345bb0f959),
    (0x05ccd6255c1e6f0c, 0x5cf1f0df934194c6, 0x2911d14d0321662a, 0x8f1a48999e34185b),
    (0x0f0e34a64b70a626, 0xe464d846674c4c88, 0x16c4fb267fe44fe6, 0xea28678cb09490a4),
    (0x0558531a4e25470c, 0x6157794ca36d0e96, 0x47dbfcfe350d6483, 0x8f5b1a8a2de0d4bf),
    (0x09d3dca9173ed2fa, 0xceea125157683d18, 0x924cadad3f655a60, 0xb72f5864961f1455),
    (0x0328cbd54e8c0913, 0x493f866ed03d218b, 0xf23f92d68aaec486, 0x17d4c722e5bd4335),
    (0x2bf07216e2aff0a2, 0x23a487b1a7094e07, 0xe79e7bcc9798c648, 0xee3347dd5329d34b),
    (0x1daf345a58006b73, 0x6499c583cb76c316, 0xd6f78ed6a6dffc82, 0x111e11a63fe412df),
    (0x176563472456aaa7, 0x46b694c60e182361, 0x1ef39039b2edc7ff, 0x391e6f2293d2c404),
];

/// The diagonal of the internal matrix, less the identity, for BLS12-381 and width 2.
pub const MAT_DIAG_BLS12_381_T_2: [Limbs; 2] = [
    (0x0000000000000000, 0x0000000000000000, 0x0000000000000000, 0x0000000000000001),
    (0x0000000000000000, 0x0000000000000000, 0x0000000000000000, 0x0000000000000002),
];

/// The round constants for BLS12-381 and width 2, round after round.
pub const RC_BLS12_381_T_2: [Limbs; 128] = [
    (0x6267f5556c882573, 0x24c1c8b00d5871b2, 0xeba13cc39d72aa10, 0xdde6b69bc44c41c7),
    (0x30347723511438a0, 0x85118166c68bf0c4, 0xf4ab5c10a2c55adb, 0x5cf87cc9e030f60f),
    (0x10db856965e40038, 0xeb6427303181e7b7, 0x439f1a051aa4630c, 0x26cf86d0a0451a4b),
    (0x5a3d2dcd541e4faa, 0xae7eb143eec847a0, 0xf652b6dc1b92e3f3, 0x9ec23c808b3a5d63),
    (0x3b07f0ff7edcf93b, 0x1dd0487bc9fab1c6, 0x905f9ceee38dcce8, 0x3efeb3a320398526),
    (0x40c73c524b9fd0fa, 0xb63128175befe07b, 0x5c63ccdde9ca10e1, 0xa37205c9607fdf8a),
    (0x3a933861cf237523, 0x76d94dbb24b0f3c6, 0x1630787928875c07, 0x672b68abfb9191e0),
    (0x71cc165e208570b2, 0xd5ef81db84e3c5e7, 0x14ea4edfb36fc7fb, 0x11ef65a64b2d9755),
    (0x6c0dc9eb332b5d96, 0x8bec8ad68fe24ce3, 0x4087ea54093f1536, 0x18434475bce402f8),
    (0x0000000000000000, 0x0000000000000000, 0x0000000000000000, 0x0000000000000000),
    (0x0af5bafd335dae5c, 0x86967b11d5dcefb9, 0x86a54c9d60d35eb0, 0x6dc7a3fd779b3906),
    (0x0000000000000000, 0x0000000000000000, 0x0000000000000000, 0x0000000000000000),
    (0x6e12847918f030f2, 0x626c150ab69e4be0, 0xf13d202ae1f8bc87, 0xea74323e93372e3b),
    (0x0000000000000000, 0x0000000000000000, 0x0000000000000000, 0x0000000000000000),
    (0x5565d40e21d059a2, 0x6db241ca125d9316, 0x283eadf144b1318e, 0x604e253eeae1fe9a),
    (0x0000000000000000, 0x0000000000000000, 0x0000000000000000, 0x0000000000000000),
    (0x608e01b42d3dca09, 0xfed9b54eadaaba3e, 0x4ce6aefe92b0dc95, 0x4a0fa4683a9678f2),
    (0x0000000000000000, 0x0000000000000000, 0x0000000000000000, 0x0000000000000000),
    (0x16bbe434b24f94e2, 0xc40ed1f4f9bd7d17, 0xe5be96c3aec15579, 0xb35fd80f0f80de9e),
    (0x0000000000000000, 0x0000000000000000, 0x0000000000000000, 0x0000000000000000),
    (0x0d1be811a8e73220, 0xcab01ce981d47552, 0x2c3d7dd9e2716c3a, 0x2cf4ddd541546890),
    (0x0000000000000000, 0x0000000000000000, 0x0000000000000000, 0x0000000000000000),
    (0x5997a3affb18f942, 0x868b86f8ee10a689, 0x66e90bac7bbd8c65, 0xede7e6e5ef1f6320),
    (0x0000000000000000, 0x0000000000000000, 0x0000000000000000, 0x0000000000000000),
    (0x4d92e86d27004106, 0x1eec80278079fca7, 0x71499dea5ccdc996, 0x82a953bb3a038b8e),
    (0x0000000000000000, 0x0000000000000000, 0x0000000000000000, 0x0000000000000000),
    (0x616c8c5ce232b931, 0x4f694fc6a968446e, 0xa9daf7a4079ce1a7, 0x5fcc950741d680bb),
    (0x0000000000000000, 0x0000000000000000, 0x0000000000000000, 0x0000000000000000),
    (0x677e31e7846d9131, 0xbdc350eaf11a8ff9, 0x18dd258ddd800444, 0x424afab34dfdfe3d),
    (0x0000000000000000, 0x0000000000000000, 0x0000000000000000, 0x0000000000000000),
    (0x4e7d7f85aefc110b, 0x233525ee3e53851a, 0xee7d3241e2a13258, 0x5e0e25005eee0b0e),
    (0x0000000000000000, 0x0000000000000000, 0x0000000000000000, 0x0000000000000000),
    (0x06a8b4539488b7dd, 0xdc48c3a226dbda31, 0x3f906e106f844196, 0xd55013d321244f13),
    (0x0000000000000000, 0x0000000000000000, 0x0000000000000000, 0x0000000000000000),
    (0x5091517b6a857831, 0x08999f8e6bda3c79, 0x3bef3f2e9589641d, 0x260bdfde8bdef00d),
    (0x0000000000000000, 0x0000000000000000, 0x0000000000000000, 0x0000000000000000),
    (0x0d2703e5b30f54d7, 0xf414e901802d54f8, 0xc14cd6355415df6e, 0x0f063d16bef9c43a),
    (0x0000000000000000, 0x0000000000000000, 0x0000000000000000, 0x0000000000000000),
    (0x56f69096811148eb, 0x38eec143d32565c0, 0x77b3d1a4a4351f2b, 0x458f43b1659d4495),
    (0x0000000000000000, 0x0000000000000000, 0x0000000000000000, 0x0000000000000000),
    (0x622d94d38d1ded42, 0x8afd062008c5709b, 0x43a678f6ba518ec5, 0x6383e8ffba473504),
    (0x0000000000000000, 0x0000000000000000, 0x0000000000000000, 0x0000000000000000),
    (0x2730c607bba73337, 0x23a4a44577819b7d, 0xb82a24574f6d13ee, 0xe4c856c1ca3de9c7),
    (0x0000000000000000, 0x0000000000000000, 0x0000000000000000, 0x0000000000000000),
    (0x01ac5f59256c5004, 0xdc1043c53b23800a, 0x3fbab53eb1a83f55, 0x1056f227b514b9f6),
    (0x0000000000000000, 0x0000000000000000, 0x0000000000000000, 0x0000000000000000),
    (0x0790b92523c973f1, 0xc95b94937afbb579, 0x6d89481e7a56328b, 0x44bab5ba81ae42f3),
    (0x0000000000000000, 0x0000000000000000, 0x0000000000000000, 0x0000000000000000),
    (0x1d63b59d97bc269d, 0x13964fb3e8771d0a, 0xcc749bc83eb2f037, 0x2484e266142bb8c0),
    (0x0000000000000000, 0x0000000000000000, 0x0000000000000000, 0x0000000000000000),
    (0x1a52d04e5f14a3a0, 0x5f7a01262df9e68c, 0x77fdf7e2bfb56c8b, 0x252d2140efdf0914),
    (0x0000000000000000, 0x0000000000000000, 0x0000000000000000, 0x0000000000000000),
    (0x5aa9b3b808812b28, 0x4857e8622843a871, 0x7fa5cb49b217017f, 0x31d79e8d0f963fc0),
    (0x0000000000000000, 0x0000000000000000, 0x0000000000000000, 0x0000000000000000),
    (0x6a3d18fdbeb1d77e, 0xc1304539b00e6188, 0x786dbbc4435269b4, 0xc6281367f42656e3),
    (0x0000000000000000, 0x0000000000000000, 0x0000000000000000, 0x0000000000000000),
    (0x4743e860df269a85, 0xdd76fb99dbe9d840, 0xeb669dc859754b3f, 0x74805e57ba288b00),
    (0x0000000000000000, 0x0000000000000000, 0x0000000000000000, 0x0000000000000000),
    (0x6c32cac3946825f8, 0x0a434c5ab397fc1a, 0x1c6a9bdfaab53175, 0xd4cf3d29ddb6cbc6),
    (0x0000000000000000, 0x0000000000000000, 0x0000000000000000, 0x0000000000000000),
    (0x333b0eea5da7ed1e, 0x3959d16280a361aa, 0x77dd24ecbfb28e1b, 0x2583ac4e9894305c),
    (0x0000000000000000, 0x0000000000000000, 0x0000000000000000, 0x0000000000000000),
    (0x3b503fc333b795cc, 0xc0c5bb3ae26b077d, 0xc3742cb745ec8821, 0x648c5ce7ebd9df18),
    (0x0000000000000000, 0x0000000000000000, 0x0000000000000000, 0x0000000000000000),
    (0x4fa5853188d9f728, 0xa17532d94bee6fb2, 0x8fee510380a5d509, 0x27c6c5b1ce283444),
    (0x0000000000000000, 0x0000000000000000, 0x0000000000000000, 0x0000000000000000),
    (0x5d2ed8a6603a905b, 0xac490ebfb9e6c18f, 0x0bc9da1bbc217329, 0x1b18de6b6186118f),
    (0x0000000000000000, 0x0000000000000000, 0x0000000000000000, 0x0000000000000000),
    (0x2d830a53584c5556, 0x264852f075c78f7f, 0x9eb068016ae88af9, 0xcda933d6ae52eca7),
    (0x0000000000000000, 0x0000000000000000, 0x0000000000000000, 0x0000000000000000),
    (0x0250f4d6780ad29a, 0xe60e55f135b9ac80, 0xccc7c81e3add37db, 0x276c26f1a2b1b86e),
    (0x0000000000000000, 0x0000000000000000, 0x0000000000000000, 0x0000000000000000),
    (0x6e3e9595f5922059, 0x9e23e830728d4a0c, 0x4d62515ec1ed10b7, 0x2446cf4df5b4c308),
    (0x0000000000000000, 0x0000000000000000, 0x0000000000000000, 0x0000000000000000),
    (0x2cd3314555d6faf2, 0x3ee90cdb884f1c46, 0x97ebe98e3a450a62, 0x4c4d896233b93cd5),
    (0x0000000000000000, 0x0000000000000000, 0x0000000000000000, 0x0000000000000000),
    (0x584a408d0f370543, 0xb8413fee70a060a3, 0x94e561f504d8679f, 0x7bece4bf222e4108),
    (0x0000000000000000, 0x0000000000000000, 0x0000000000000000, 0x0000000000000000),
    (0x499cd53437b9fcbf, 0x7479c00fcc212957, 0x59074ce9bd1bb1fb, 0xd3460237aef4759e),
    (0x0000000000000000, 0x0000000000000000, 0x0000000000000000, 0x0000000000000000),
    (0x56a9b567bd0646ef, 0xfd0608d74d537991, 0x136098d9a06af6cb, 0x3ff8f010efb57578),
    (0x0000000000000000, 0x0000000000000000, 0x0000000000000000, 0x0000000000000000),
    (0x6a5fae2b00d968b9, 0x31441b374e27ba4d, 0x03b306bd602d4873, 0x1677169e75a67e8c),
    (0x0000000000000000, 0x0000000000000000, 0x0000000000000000, 0x0000000000000000),
    (0x2e1cc28e390e64aa, 0x1d60edb99c0aeda7, 0xc8c32bdb01ba11ab, 0xbad5026b46eccb27),
    (0x0000000000000000, 0x0000000000000000, 0x0000000000000000, 0x0000000000000000),
    (0x2d4820000675df7c, 0x276beac408fe2e85, 0x1e734a7008ae09bb, 0xcb3c96c70024f71b),
    (0x0000000000000000, 0x0000000000000000, 0x0000000000000000, 0x0000000000000000),
    (0x0c2fe101a2b52b53, 0x8b902c6b2dc992cb, 0x266f7636e05b0c06, 0x8385b5fa19e97142),
    (0x0000000000000000, 0x0000000000000000, 0x0000000000000000, 0x0000000000000000),
    (0x209b790b78c0e792, 0x7c6a178ef2f00b86, 0x87fc7bd4f21a9e02, 0x578551535002bc95),
    (0x0000000000000000, 0x0000000000000000, 0x0000000000000000, 0x0000000000000000),
    (0x2dd0926cf56bbaae, 0xc6491513d08a9983, 0xf94a910852a7b4ea, 0x4bd4222b93e14c10),
    (0x0000000000000000, 0x0000000000000000, 0x0000000000000000, 0x0000000000000000),
    (0x4316b39dd7d65b1b, 0xb575198104d409b1, 0x69236a7ade371f7a, 0xb176fcbae75a5f0d),
    (0x0000000000000000, 0x0000000000000000, 0x0000000000000000, 0x0000000000000000),
    (0x540276d61041b91f, 0x6ea3068ec260a933, 0x8b6e3da15d934e64, 0x8c24f35aee04e535),
    (0x0000000000000000, 0x0000000000000000, 0x0000000000000000, 0x0000000000000000),
    (0x37af612900b83997, 0x7b146324c84772c5, 0x8a4ccc0f6494cc05, 0x4571827e74bfd2d3),
    (0x0000000000000000, 0x0000000000000000, 0x0000000000000000, 0x0000000000000000),
    (0x2af00c93d59ed14c, 0x9911e5cb3781d772, 0x371e83228e4267bb, 0xce11d065c1955338),
    (0x0000000000000000, 0x0000000000000000, 0x0000000000000000, 0x0000000000000000),
    (0x62b48779b0cf7ff2, 0xc10fd9b91a6ff7b7, 0xa99f935e961a5a94, 0xaa38f9d4f71c8b4c),
    (0x0000000000000000, 0x0000000000000000, 0x0000000000000000, 0x0000000000000000),
    (0x540bf5bbe01f2856, 0x3bcbe11a2ce346d8, 0x231a2cdd0fe07641, 0xf9fa89e5c21978e3),
    (0x0000000000000000, 0x0000000000000000, 0x0000000000000000, 0x0000000000000000),
    (0x232b6c847a6d2391, 0x2cb10ecbe50b5349, 0x1f67f71e9b87a4a3, 0x0446f2218017874b),
    (0x0000000000000000, 0x0000000000000000, 0x0000000000000000, 0x0000000000000000),
    (0x0ab34adbe77b8f1e, 0x57a370e4fd626071, 0xeea74b3f0b66644a, 0x629efaa0e96456c0),
    (0x0000000000000000, 0x0000000000000000, 0x0000000000000000, 0x0000000000000000),
    (0x1a83e43ef118c900, 0x46b1bdbeab8dd5cd, 0xcab632807c2cd0dc, 0x9147cbc5b7084be8),
    (0x0000000000000000, 0x0000000000000000, 0x0000000000000000, 0x0000000000000000),
    (0x1ec6fa41b41b672d, 0x9005468720918130, 0xb642567462a3d557, 0xa595d4dc6c56f2f9),
    (0x0000000000000000, 0x0000000000000000, 0x0000000000000000, 0x0000000000000000),
    (0x01f81a153199a751, 0xa111b8f5212cfc5b, 0xf82aacf0287d03e1, 0x864f8e5713fe4a17),
    (0x0000000000000000, 0x0000000000000000, 0x0000000000000000, 0x0000000000000000),
    (0x2617307587a675f4, 0xecd73a54a7b20616, 0x2d751cabf3d9fd00, 0x7bcca4de2c6f0649),
    (0x0000000000000000, 0x0000000000000000, 0x0000000000000000, 0x0000000000000000),
    (0x1647be94c515178c, 0x7974a245624b642b, 0xb1ae6e2d4e168208, 0x7e362d7f98bc953f),
    (0x0000000000000000, 0x0000000000000000, 0x0000000000000000, 0x0000000000000000),
    (0x6e690b956e00b9e3, 0x39dec49d675586f6, 0x61f9b081ee3fa769, 0x6d73977658aa6fea),
    (0x660b85bc22de06d4, 0x76c47bf084ad436f, 0x59874f1d630c0f5c, 0x91fbef51d5e738c5),
    (0x32bf3d451b69dde0, 0x75fc370eaa8c1b77, 0xb5c0bc2aab1c7b46, 0xda7ef9d1840b0419),
    (0x73924b40beaa9c1c, 0xe4074c2154d1af4d, 0x658c09395a568b99, 0xb2fbcc3b5685e810),
    (0x17cbb3ee0adcb9d9, 0x77e96e9152b36042, 0x925244fdd0aa184c, 0x7a89a58a2dc40097),
    (0x29d76a821e322077, 0x5c552f6b5977ab94, 0x956e52b8dac36ef8, 0x8ace050d553766a3),
    (0x62b1a6c06ab26881, 0xa1fe57eceac56b5a, 0xec0b96da7211557f, 0x4e27ec24296d7db6),
    (0x0dfc474151e5c605, 0xa693a51ae8227cc0, 0xa99fdc4524fc2810, 0xc6eda9035d04334d),
];

/// The diagonal of the internal matrix, less the identity, for BLS12-381 and width 3.
pub const MAT_DIAG_BLS12_381_T_3: [Limbs; 3] = [
    (0x0000000000000000, 0x0000000000000000, 0x0000000000000000, 0x0000000000000001),
    (0x0000000000000000, 0x0000000000000000, 0x0000000000000000, 0x0000000000000001),
    (0x0000000000000000, 0x0000000000000000, 0x0000000000000000, 0x0000000000000002),
];

/// The round constants for BLS12-381 and width 3, round after round.
pub const RC_BLS12_381_T_3: [Limbs; 192] = [
    (0x6f007a551156b3a4, 0x49e44936b7c09364, 0x4a0ed33f33eaccc6, 0x28e942e836c1a875),
    (0x360d7470611e473d, 0x353f628f76d110f3, 0x4e71162f31003b70, 0x57538c2596426303),
    (0x4b5fec3aa073df44, 0x019091f007a44ca9, 0x96484965f7036dce, 0x3e9d0977edcdc0f6),
    (0x67cf1868af6396c0, 0xb84cce715e539f84, 0x9e06cd1c383ac5b0, 0x6100c76bcc973a11),
    (0x555db4d1dced819f, 0x5d3de70fde83f1c7, 0xd3e8c98968e516a2, 0x3a771a5c9c8257aa),
    (0x2bab94d7ae222d13, 0x5dc3c6c5febfaa31, 0x4908ac2f12ebe06f, 0xbdb74213bf63188b),
    (0x66f44be5296682c4, 0xfa7882799d6dd049, 0xb6d7d2c950ccf98c, 0xf2e50d6d1ebb77c2),
    (0x150c93fef652fb1c, 0x2bf03e1a29aa871f, 0xef77e7d736766c5d, 0x0939d92753cc5dc8),
    (0x3270661e68928b3a, 0x955d55db56dc57c1, 0x03cc0a60141e894e, 0x14259dce537782b2),
    (0x073f116f04122e25, 0xa0b7afe4e2057299, 0xb407c370f2b5a1cc, 0xce9fb9ffc345afb3),
    (0x409fda22558cfe4d, 0x3dd8dce24f69e76f, 0x8c2aaeb1dd0f09d6, 0x5e654c71f32aa23f),
    (0x2a32ec5c4ee5b183, 0x7affd09c1f53f5fd, 0x55c9cd2061ae93ca, 0x8ebad76fc71554d8),
    (0x5848ebeb5923e925, 0x55b7124fffba5d6b, 0xd571c6f984195eb9, 0xcfd3a3e8eb55b1d4),
    (0x0000000000000000, 0x0000000000000000, 0x0000000000000000, 0x0000000000000000),
    (0x0000000000000000, 0x0000000000000000, 0x0000000000000000, 0x0000000000000000),
    (0x270326ee039df19e, 0x651e2cfc740628ca, 0x634d24fc6e2559f2, 0x2d8ccbe292efeead),
    (0x0000000000000000, 0x0000000000000000, 0x0000000000000000, 0x0000000000000000),
    (0x0000000000000000, 0x0000000000000000, 0x0000000000000000, 0x0000000000000000),
    (0x27c6642ac633bc66, 0xdc100fe7fcfa5491, 0x8af895bce012f182, 0xa068fc37c182e274),
    (0x0000000000000000, 0x0000000000000000, 0x0000000000000000, 0x0000000000000000),
    (0x0000000000000000, 0x0000000000000000, 0x0000000000000000, 0x0000000000000000),
    (0x1bdfd8b01401c70a, 0xd27f57396989129d, 0x710e1fb6ab976a45, 0x9ca18682e26d7ff9),
    (0x0000000000000000, 0x0000000000000000, 0x0000000000000000, 0x0000000000000000),
    (0x0000000000000000, 0x0000000000000000, 0x0000000000000000, 0x0000000000000000),
    (0x491b9ba6983bcf9f, 0x05fe4794adb44a30, 0x879bf8289662e1f5, 0x7d90f672414e8a4a),
    (0x0000000000000000, 0x0000000000000000, 0x0000000000000000, 0x0000000000000000),
    (0x0000000000000000, 0x0000000000000000, 0x0000000000000000, 0x0000000000000000),
    (0x162a14c62f9a89b8, 0x14b9d6a9c84dd678, 0xf4f6fb3f9054d373, 0xc832d824261a35ea),
    (0x0000000000000000, 0x0000000000000000, 0x0000000000000000, 0x0000000000000000),
    (0x0000000000000000, 0x0000000000000000, 0x0000000000000000, 0x0000000000000000),
    (0x2d193e0f76de586b, 0x2af6f79e3127feea, 0xac0a1fc71e2cf0c0, 0xf79824667b5b6bec),
    (0x0000000000000000, 0x0000000000000000, 0x0000000000000000, 0x0000000000000000),
    (0x0000000000000000, 0x0000000000000000, 0x0000000000000000, 0x0000000000000000),
    (0x46efd8a9a262d6d8, 0xfdc9ca5c04b0982f, 0x24ddcc6e9863885a, 0x6a732a3906a07b95),
    (0x0000000000000000, 0x0000000000000000, 0x0000000000000000, 0x0000000000000000),
    (0x0000000000000000, 0x0000000000000000, 0x0000000000000000, 0x0000000000000000),
    (0x509717e0c200e3c9, 0x2d8dca2973b3db45, 0xf0788294351ad07a, 0xe75cbb780693a798),
    (0x0000000000000000, 0x0000000000000000, 0x0000000000000000, 0x0000000000000000),
    (0x0000000000000000, 0x0000000000000000, 0x0000000000000000, 0x0000000000000000),
    (0x7299b28464a8c94f, 0xb9d4df61380f39c0, 0xdca9c2c014118789, 0xe227252820f01bfc),
    (0x0000000000000000, 0x0000000000000000, 0x0000000000000000, 0x0000000000000000),
    (0x0000000000000000, 0x0000000000000000, 0x0000000000000000, 0x0000000000000000),
    (0x044ca3cc4a85d73b, 0x81696ef1104e674f, 0x4feff82984990ff8, 0x5d0bf58dc8a4aa94),
    (0x0000000000000000, 0x0000000000000000, 0x0000000000000000, 0x0000000000000000),
    (0x0000000000000000, 0x0000000000000000, 0x0000000000000000, 0x0000000000000000),
    (0x1cbaf2b371dac6a8, 0x1d0453416d3e235c, 0xb8d9e2d4f314f46f, 0x6198785f0cd6b9af),
    (0x0000000000000000, 0x0000000000000000, 0x0000000000000000, 0x0000000000000000),
    (0x0000000000000000, 0x0000000000000000, 0x0000000000000000, 0x0000000000000000),
    (0x1d5b2777692c205b, 0x0e6c49d061b6b5f4, 0x293c4ab038fdbbdc, 0x343e07610f3fede5),
    (0x0000000000000000, 0x0000000000000000, 0x0000000000000000, 0x0000000000000000),
    (0x0000000000000000, 0x0000000000000000, 0x0000000000000000, 0x0000000000000000),
    (0x56ae7c7a5293bdc2, 0x3e85e1698c81c77f, 0x8ad88c4b33a57804, 0x37ad047c6edb59ba),
    (0x0000000000000000, 0x0000000000000000, 0x0000000000000000, 0x0000000000000000),
    (0x0000000000000000, 0x0000000000000000, 0x0000000000000000, 0x0000000000000000),
    (0x2e9bdbba3dd34bff, 0xaa30535bdd749a7e, 0x06a9adb0c1e6f962, 0xf60e971b8d73b04f),
    (0x0000000000000000, 0x0000000000000000, 0x0000000000000000, 0x0000000000000000),
    (0x0000000000000000, 0x0000000000000000, 0x0000000000000000, 0x0000000000000000),
    (0x2de11886b18011ca, 0x8bd5bae36969299f, 0xde40fbe26d047b05, 0x035a13661f22418b),
    (0x0000000000000000, 0x0000000000000000, 0x0000000000000000, 0x0000000000000000),
    (0x0000000000000000, 0x0000000000000000, 0x0000000000000000, 0x0000000000000000),
    (0x2e07de1780b8a70d, 0x0d5b4a3f1841dcd8, 0x2ab9395c449be947, 0xbc998884ba96a721),
    (0x0000000000000000, 0x0000000000000000, 0x0000000000000000, 0x0000000000000000),
    (0x0000000000000000, 0x0000000000000000, 0x0000000000000000, 0x0000000000000000),
    (0x0f69f1854d20ca0c, 0xbbdb63dbd52dad16, 0x250440a99d6b8af3, 0x825e4c2bb74925ca),
    (0x0000000000000000, 0x0000000000000000, 0x0000000000000000, 0x0000000000000000),
    (0x0000000000000000, 0x0000000000000000, 0x0000000000000000, 0x0000000000000000),
    (0x5dc987318e6e59c1, 0xafb87b655dd58cc1, 0xd22e513a05838cd4, 0x585d04b135b957ca),
    (0x0000000000000000, 0x0000000000000000, 0x0000000000000000, 0x0000000000000000),
    (0x0000000000000000, 0x0000000000000000, 0x0000000000000000, 0x0000000000000000),
    (0x48b725758571c9df, 0x6c01dc639a85f072, 0x97696b1bb678633a, 0x29dc91de95ef53f6),
    (0x0000000000000000, 0x0000000000000000, 0x0000000000000000, 0x0000000000000000),
    (0x0000000000000000, 0x0000000000000000, 0x0000000000000000, 0x0000000000000000),
    (0x5e565e08c0821099, 0x256b56490eaee1d5, 0x73afd10bb6d17d13, 0xca4e5c611b2a3718),
    (0x0000000000000000, 0x0000000000000000, 0x0000000000000000, 0x0000000000000000),
    (0x0000000000000000, 0x0000000000000000, 0x0000000000000000, 0x0000000000000000),
    (0x2eb1b25417fe1767, 0x0d135dc639fb09a4, 0x6ce5113507f96de9, 0x816c059422dc705e),
    (0x0000000000000000, 0x0000000000000000, 0x0000000000000000, 0x0000000000000000),
    (0x0000000000000000, 0x0000000000000000, 0x0000000000000000, 0x0000000000000000),
    (0x115cd0a0643cfb98, 0x8c24cb44c3fab48a, 0xff36c661d26cc42d, 0xb8b1bdf4953bd82c),
    (0x0000000000000000, 0x0000000000000000, 0x0000000000000000, 0x0000000000000000),
    (0x0000000000000000, 0x0000000000000000, 0x0000000000000000, 0x0000000000000000),
    (0x26ca293f7b2c462d, 0x066d7378b999868b, 0xbb57ddf14e0f958a, 0xde801612311d04cd),
    (0x0000000000000000, 0x0000000000000000, 0x0000000000000000, 0x0000000000000000),
    (0x0000000000000000, 0x0000000000000000, 0x0000000000000000, 0x0000000000000000),
    (0x4147400d8e1aaccf, 0x311a6b5b762011ab, 0x3e45326e4d4b9de2, 0x6992816b99c528ac),
    (0x0000000000000000, 0x0000000000000000, 0x0000000000000000, 0x0000000000000000),
    (0x0000000000000000, 0x0000000000000000, 0x0000000000000000, 0x0000000000000000),
    (0x6b0db7dccc4ba1b2, 0x68f6bdcc4d372848, 0xd4a72976c268ea30, 0x519a2f73e6db4d55),
    (0x0000000000000000, 0x0000000000000000, 0x0000000000000000, 0x0000000000000000),
    (0x0000000000000000, 0x0000000000000000, 0x0000000000000000, 0x0000000000000000),
    (0x17bf1b93c4c7e01a, 0x2a830aa162412cd9, 0x0f160bf9f71e967f, 0xf5209d14b24820ca),
    (0x0000000000000000, 0x0000000000000000, 0x0000000000000000, 0x0000000000000000),
    (0x0000000000000000, 0x0000000000000000, 0x0000000000000000, 0x0000000000000000),
    (0x4b431cd9efedbc94, 0xcf1eca6f9e9c1839, 0xd0e66a8bffa8c846, 0x4cac81a39d3cf8f1),
    (0x0000000000000000, 0x0000000000000000, 0x0000000000000000, 0x0000000000000000),
    (0x0000000000000000, 0x0000000000000000, 0x0000000000000000, 0x0000000000000000),
    (0x35b41a7ac4f3c571, 0xa24f8456369c85df, 0xe03c0354bd8cfd38, 0x05c86f2e7dc293c5),
    (0x0000000000000000, 0x0000000000000000, 0x0000000000000000, 0x0000000000000000),
    (0x0000000000000000, 0x0000000000000000, 0x0000000000000000, 0x0000000000000000),
    (0x3b1480080523c439, 0x435927994849bea9, 0x64e14d3beb2dddde, 0x72ac156af435d09e),
    (0x0000000000000000, 0x0000000000000000, 0x0000000000000000, 0x0000000000000000),
    (0x0000000000000000, 0x0000000000000000, 0x0000000000000000, 0x0000000000000000),
    (0x2cc6810031dc1b0d, 0x4950856dc907d575, 0x08e286442a2d3eb2, 0x271618d874b14c6d),
    (0x0000000000000000, 0x0000000000000000, 0x0000000000000000, 0x0000000000000000),
    (0x0000000000000000, 0x0000000000000000, 0x0000000000000000, 0x0000000000000000),
    (0x6f4141c8401c5a39, 0x5ba6790efd71c70c, 0x04afea06c3c92826, 0xbcabdd5cb5477d51),
    (0x0000000000000000, 0x0000000000000000, 0x0000000000000000, 0x0000000000000000),
    (0x0000000000000000, 0x0000000000000000, 0x0000000000000000, 0x0000000000000000),
    (0x25bdbbeda1bde8c1, 0x059618e2afd2ef99, 0x9e517aa93b78341d, 0x91f318c09f0cb566),
    (0x0000000000000000, 0x0000000000000000, 0x0000000000000000, 0x0000000000000000),
    (0x0000000000000000, 0x0000000000000000, 0x0000000000000000, 0x0000000000000000),
    (0x392a4a8758e06ee8, 0xb95f33c25dde8ac0, 0x2a5ed0a27b61926c, 0xc6313487073f7f7b),
    (0x0000000000000000, 0x0000000000000000, 0x0000000000000000, 0x0000000000000000),
    (0x0000000000000000, 0x0000000000000000, 0x0000000000000000, 0x0000000000000000),
    (0x272a55878a08442b, 0x9aa6111f4de00948, 0x5e6a6fd15db89365, 0xe7bbcef02eb5866c),
    (0x0000000000000000, 0x0000000000000000, 0x0000000000000000, 0x0000000000000000),
    (0x0000000000000000, 0x0000000000000000, 0x0000000000000000, 0x0000000000000000),
    (0x631ec1d6d28dd9e8, 0x24ee89a30730aef7, 0xab463acfc9d184b3, 0x55aa05fd6938eab5),
    (0x0000000000000000, 0x0000000000000000, 0x0000000000000000, 0x0000000000000000),
    (0x0000000000000000, 0x0000000000000000, 0x0000000000000000, 0x0000000000000000),
    (0x4eb6fda10fd0fbde, 0x02c7449bfbddc35b, 0xcd8225e7e5c3833a, 0x0818a100409dc6f2),
    (0x0000000000000000, 0x0000000000000000, 0x0000000000000000, 0x0000000000000000),
    (0x0000000000000000, 0x0000000000000000, 0x0000000000000000, 0x0000000000000000),
    (0x2d5b308b0cf02cdf, 0xefa13c4e60e26239, 0xa6ebba011694dd12, 0x9b925b3c5b21e0e2),
    (0x0000000000000000, 0x0000000000000000, 0x0000000000000000, 0x0000000000000000),
    (0x0000000000000000, 0x0000000000000000, 0x0000000000000000, 0x0000000000000000),
    (0x16549fc6af2f3b72, 0xdd5d293d72e2e5f2, 0x44dff42f18b46c56, 0xef38c57c311673ac),
    (0x0000000000000000, 0x0000000000000000, 0x0000000000000000, 0x0000000000000000),
    (0x0000000000000000, 0x0000000000000000, 0x0000000000000000, 0x0000000000000000),
    (0x42332677ff359c5e, 0x8db836d9f5fb5482, 0x2e39bd5e22340bb9, 0xba975ba1a92be382),
    (0x0000000000000000, 0x0000000000000000, 0x0000000000000000, 0x0000000000000000),
    (0x0000000000000000, 0x0000000000000000, 0x0000000000000000, 0x0000000000000000),
    (0x49d7d2c0b449e517, 0x9bc5ccc3b44c6075, 0xd9849b5610465f09, 0xea725ddc97723a94),
    (0x0000000000000000, 0x0000000000000000, 0x0000000000000000, 0x0000000000000000),
    (0x0000000000000000, 0x0000000000000000, 0x0000000000000000, 0x0000000000000000),
    (0x64c20fb90d7a0038, 0x31757cc4c6226f6e, 0x4985fc9ecb416b9f, 0x684ca0351d967904),
    (0x0000000000000000, 0x0000000000000000, 0x0000000000000000, 0x0000000000000000),
    (0x0000000000000000, 0x0000000000000000, 0x0000000000000000, 0x0000000000000000),
    (0x59cff40de83b52b4, 0x1bc443d7979510d7, 0x71c940b9758ca820, 0xfe73b5c8d5580934),
    (0x0000000000000000, 0x0000000000000000, 0x0000000000000000, 0x0000000000000000),
    (0x0000000000000000, 0x0000000000000000, 0x0000000000000000, 0x0000000000000000),
    (0x53db2731730c39b0, 0x4edd875fe3b7c882, 0x808285cdbc621d7a, 0xf4f80dd53ebb71b0),
    (0x0000000000000000, 0x0000000000000000, 0x0000000000000000, 0x0000000000000000),
    (0x0000000000000000, 0x0000000000000000, 0x0000000000000000, 0x0000000000000000),
    (0x1b10bb7a82afce39, 0xfa69c3a2ad52f76d, 0x7639826534420311, 0x9b7126d9b46860df),
    (0x0000000000000000, 0x0000000000000000, 0x0000000000000000, 0x0000000000000000),
    (0x0000000000000000, 0x0000000000000000, 0x0000000000000000, 0x0000000000000000),
    (0x561b6012d666bfe1, 0x79c4dd7f84cdd153, 0x1596d3aac7c5700c, 0xeb319f91046a63c9),
    (0x0000000000000000, 0x0000000000000000, 0x0000000000000000, 0x0000000000000000),
    (0x0000000000000000, 0x0000000000000000, 0x0000000000000000, 0x0000000000000000),
    (0x0f1e7505ebd91d2f, 0xc79c2df7dc98a3be, 0xd1b36968ba0405c0, 0x90d27f6a00b7dfc8),
    (0x0000000000000000, 0x0000000000000000, 0x0000000000000000, 0x0000000000000000),
    (0x0000000000000000, 0x0000000000000000, 0x0000000000000000, 0x0000000000000000),
    (0x2f313faf0d3f6187, 0x537a7497a3b43f46, 0x797fd6e3f18eb1ca, 0xff457756b819bb20),
    (0x0000000000000000, 0x0000000000000000, 0x0000000000000000, 0x0000000000000000),
    (0x0000000000000000, 0x0000000000000000, 0x0000000000000000, 0x0000000000000000),
    (0x3a5cbb6de450b481, 0xfa3ca61c0ed15bc5, 0x5cad11ebf0f7ceb8, 0xf0bc3e732ecb26f6),
    (0x0000000000000000, 0x0000000000000000, 0x0000000000000000, 0x0000000000000000),
    (0x0000000000000000, 0x0000000000000000, 0x0000000000000000, 0x0000000000000000),
    (0x681d93411bf8ce63, 0xf6716aefbd0e2450, 0x6454c0348ee38fab, 0xeb264702714ccf94),
    (0x0000000000000000, 0x0000000000000000, 0x0000000000000000, 0x0000000000000000),
    (0x0000000000000000, 0x0000000000000000, 0x0000000000000000, 0x0000000000000000),
    (0x5178e940f5000431, 0x2646b436727f0e80, 0xa7b8f2e9ee1fdc67, 0x7c4831a7672777fb),
    (0x0000000000000000, 0x0000000000000000, 0x0000000000000000, 0x0000000000000000),
    (0x0000000000000000, 0x0000000000000000, 0x0000000000000000, 0x0000000000000000),
    (0x3dab54bc9bef688d, 0xd92086e253b439d6, 0x51baa6e20f892b62, 0x865527cbca915982),
    (0x0000000000000000, 0x0000000000000000, 0x0000000000000000, 0x0000000000000000),
    (0x0000000000000000, 0x0000000000000000, 0x0000000000000000, 0x0000000000000000),
    (0x4b3ce75311218f9a, 0xe905f84eaa5b2b38, 0x18448bbf3972e1aa, 0xd69de321009015d0),
    (0x0000000000000000, 0x0000000000000000, 0x0000000000000000, 0x0000000000000000),
    (0x0000000000000000, 0x0000000000000000, 0x0000000000000000, 0x0000000000000000),
    (0x06dbfb42b979884d, 0xe280d31670123f74, 0x4c24b33b410fefd4, 0x368045acf2b71ae3),
    (0x0000000000000000, 0x0000000000000000, 0x0000000000000000, 0x0000000000000000),
    (0x0000000000000000, 0x0000000000000000, 0x0000000000000000, 0x0000000000000000),
    (0x068d6b4608aae810, 0xc6f039ea1973a63e, 0xb8d2de72e3d2c9ec, 0xa7fc32d22f18b9d3),
    (0x0000000000000000, 0x0000000000000000, 0x0000000000000000, 0x0000000000000000),
    (0x0000000000000000, 0x0000000000000000, 0x0000000000000000, 0x0000000000000000),
    (0x4c5c254589a92a36, 0x084a57d3b1d96427, 0x8acc7e4fe8f69f29, 0x55954f27a79cebef),
    (0x0000000000000000, 0x0000000000000000, 0x0000000000000000, 0x0000000000000000),
    (0x0000000000000000, 0x0000000000000000, 0x0000000000000000, 0x0000000000000000),
    (0x6cbac5e1700984eb, 0xc32da15b4bb9683f, 0xaabab55f67ccc4f7, 0x1d9560b3475a77eb),
    (0x4603c403bbfa9a17, 0x738a5c6278eaab1c, 0x37ec30b0737aa240, 0x9fc4898069eb983c),
    (0x6894e7e22b2c1d5c, 0x70a712a6345ae6b1, 0x92a9c833a9234c31, 0xc56aacd16bc2f100),
    (0x5be2cbbc44053ad0, 0x8afa4d1eabc7f3d2, 0x31eea799b93f226e, 0x905b7d4d65c58ebb),
    (0x58e55f287b453a98, 0x08624a8c2a353d52, 0x8da0f7e713a5c6d0, 0xd7711e47063fa611),
    (0x366ebfafa3ad381c, 0x0ee258c9b8fdfccd, 0xb868a7d7e1f1f69a, 0x2b5dfcc5572555df),
    (0x45766ab728968c64, 0x2f90d97ccf5504dd, 0xc10518a819ebbcc4, 0xd09c3f5d784d67ce),
    (0x39678f65512f1ee4, 0x04db3024f41d3f56, 0x7ef66d89d044d022, 0xe6bc229e95bc76b1),
    (0x463aed1d2f1f955e, 0x3078be5bf7bfc46f, 0xc0eb8c51551906a8, 0x868f18ffae30cf4f),
    (0x21668f016a8063c0, 0xd58b7750a3bc2fe1, 0xcf82c25f99dc01a4, 0xe534c88fe53d85fe),
    (0x39d00994a8a5046a, 0x1bc749363e98a768, 0xe34dea56439fe195, 0x4bef429bc5331608),
    (0x4d7f5dcd78ece9a9, 0x33984de32c0b48fa, 0xc2bba91f261996b8, 0xe9d1021773bd07cc),
];

/// The diagonal of the internal matrix, less the identity, for BLS12-381 and width 4.
pub const MAT_DIAG_BLS12_381_T_4: [Limbs; 4] = [
    (0x07564ad691bf01c8, 0x601d68757a561d22, 0x4f00f313ada673ab, 0x83e6255fb4fd5b3d),
    (0x6184e3be38549f7c, 0x0850cd069b32f6de, 0xcbfde312dd4b8c18, 0x349b1b3776a6eaa4),
    (0x419289088178ad74, 0x2be6f78425c0156b, 0x6546a18fd338f016, 0x9937dea46cfb64d2),
    (0x3244cdec173b71a4, 0x659e2529b499362d, 0xac10cb2fd1756286, 0x0c8bb9d0fd45b787),
];

/// The round constants for BLS12-381 and width 4, round after round.
pub const RC_BLS12_381_T_4: [Limbs; 256] = [
    (0x1a3bdcbfc11dabfb, 0x6ed0dd5f5a9b3819, 0x1488bce9eecd811c, 0x10f9378b32db8c61),
    (0x52b733e857912fdd, 0x2248dc9638dd79b1, 0xce18b285b2779223, 0x8b44c2b23c0f5d5f),
    (0x47d6df02d73e6c78, 0xced550ec8df1a459, 0xac41f318d8b904a3, 0x7652b581b2b766b8),
    (0x11ec284726dddcf3, 0xcbb2b81862c9cd95, 0xe9de81ce0317302e, 0x1ef432d59b913388),
    (0x19e21d749905904f, 0x3e10cd57f7817c25, 0x64c06ec1b1e229de, 0xf2129e79a7a77738),
    (0x6eeecf4c83e1ec16, 0x4217f3c00956d83c, 0x3bd845bee2d86b26, 0x3cf3bf89a345e5e1),
    (0x10d5808ab47295f7, 0xa950dc72f968398b, 0x9c67426a217811b9, 0xbd7e97f2a261992f),
    (0x25d334fbadcbfd26, 0x449c4ce1472f961f, 0x7d401a3ddf40a70a, 0xf5c10ac9176d151b),
    (0x3ef8a46ec07ee551, 0xecba60b1601cbf6e, 0x3664418331a25472, 0x9b7c6a5c3d13a6c6),
    (0x30d373e298c09d2a, 0x6efe661d708fcfa6, 0x163dc61ae1eb103d, 0x98cf88c63e482125),
    (0x18769839949b2dda, 0x9ef3f111acd86e10, 0x250ffad4c4c4263e, 0xa970e4f4726cfad7),
    (0x2c941286d1534ff3, 0xbe3a66f9dd59833e, 0x65b1fa67db23511f, 0x7b4b2ae3b3d66bc9),
    (0x08b6d9c90b4139ea, 0x70497ac8a22b30fb, 0x9b76b8ceabf70449, 0xd282b57d98c60ddd),
    (0x3a8a2dd917222a71, 0xca678b5c0a803a43, 0xc62de2f2c9fe3793, 0x1b5b2a017fe64638),
    (0x2dc17308abd0e731, 0xb3cffafd296cc3e6, 0xe2403dc563baa1c7, 0x97a68da9754dd207),
    (0x1d04e542f54431c2, 0x3f9d1812392a0c87, 0x203144e343c459d3, 0xee640b04e203be6c),
    (0x500760e2ef6bf463, 0xfdecbf7b47f4adaa, 0x8214c797e5935943, 0x9d63169e1cdb9dfb),
    (0x0000000000000000, 0x0000000000000000, 0x0000000000000000, 0x0000000000000000),
    (0x0000000000000000, 0x0000000000000000, 0x0000000000000000, 0x0000000000000000),
    (0x0000000000000000, 0x0000000000000000, 0x0000000000000000, 0x0000000000000000),
    (0x61f36faac1c12d75, 0x6dcc3b5491f2b225, 0x65409a4e952b8f8e, 0x726ee126c0e1c0e6),
    (0x0000000000000000, 0x0000000000000000, 0x0000000000000000, 0x0000000000000000),
    (0x0000000000000000, 0x0000000000000000, 0x0000000000000000, 0x0000000000000000),
    (0x0000000000000000, 0x0000000000000000, 0x0000000000000000, 0x0000000000000000),
    (0x49e72db524a48243, 0x849fea068e58d0c0, 0x78b0c738cd482a2e, 0x2160602657456ccb),
    (0x0000000000000000, 0x0000000000000000, 0x0000000000000000, 0x0000000000000000),
    (0x0000000000000000, 0x0000000000000000, 0x0000000000000000, 0x0000000000000000),
    (0x0000000000000000, 0x0000000000000000, 0x0000000000000000, 0x0000000000000000),
    (0x4a74677fff94821e, 0x97b20b86063c36d3, 0x5c6a2908c0a19a9f, 0x130edde9c8ceb6b5),
    (0x0000000000000000, 0x0000000000000000, 0x0000000000000000, 0x0000000000000000),
    (0x0000000000000000, 0x0000000000000000, 0x0000000000000000, 0x0000000000000000),
    (0x0000000000000000, 0x0000000000000000, 0x0000000000000000, 0x0000000000000000),
    (0x62d27fd5080b44a4, 0x36e13066ce1c80dd, 0xef2af086c2a4806b, 0xd99fa02de9726ded),
    (0x0000000000000000, 0x0000000000000000, 0x0000000000000000, 0x0000000000000000),
    (0x0000000000000000, 0x0000000000000000, 0x0000000000000000, 0x0000000000000000),
    (0x0000000000000000, 0x0000000000000000, 0x0000000000000000, 0x0000000000000000),
    (0x15a26c92fc51dd28, 0x5a61c2c1379f6731, 0x377aeb29c62696aa, 0x6a9c109c2991f200),
    (0x0000000000000000, 0x0000000000000000, 0x0000000000000000, 0x0000000000000000),
    (0x0000000000000000, 0x0000000000000000, 0x0000000000000000, 0x0000000000000000),
    (0x0000000000000000, 0x0000000000000000, 0x0000000000000000, 0x0000000000000000),
    (0x1db900a5e9b2685b, 0xe9f8f02498123ac7, 0x1bd7bfa40b6853ab, 0x527a8d2512b9aefb),
    (0x0000000000000000, 0x0000000000000000, 0x0000000000000000, 0x0000000000000000),
    (0x0000000000000000, 0x0000000000000000, 0x0000000000000000, 0x0000000000000000),
    (0x0000000000000000, 0x0000000000000000, 0x0000000000000000, 0x0000000000000000),
    (0x6ff755d237742498, 0xe0b78829cd8358bd, 0xb831e96fef08eb19, 0x2b7e334123080afa),
    (0x0000000000000000, 0x0000000000000000, 0x0000000000000000, 0x0000000000000000),
    (0x0000000000000000, 0x0000000000000000, 0x0000000000000000, 0x0000000000000000),
    (0x0000000000000000, 0x0000000000000000, 0x0000000000000000, 0x0000000000000000),
    (0x1595447e5b94a64c, 0x8b3681f57068e19e, 0xe3696440ef785e35, 0x123886311f48cd1e),
    (0x0000000000000000, 0x0000000000000000, 0x0000000000000000, 0x0000000000000000),
    (0x0000000000000000, 0x0000000000000000, 0x0000000000000000, 0x0000000000000000),
    (0x0000000000000000, 0x0000000000000000, 0x0000000000000000, 0x0000000000000000),
    (0x2b0eabc08eef3aba, 0xe3304cbb2efc67e7, 0xb437bd96b6f7d175, 0xdaed6da5a2144e8b),
    (0x0000000000000000, 0x0000000000000000, 0x0000000000000000, 0x0000000000000000),
    (0x0000000000000000, 0x0000000000000000, 0x0000000000000000, 0x0000000000000000),
    (0x0000000000000000, 0x0000000000000000, 0x0000000000000000, 0x0000000000000000),
    (0x3a345ee8e715f322, 0x6e52838652219202, 0xefb4e6d4f057f904, 0xd69d3fbd781e39f5),
    (0x0000000000000000, 0x0000000000000000, 0x0000000000000000, 0x0000000000000000),
    (0x0000000000000000, 0x0000000000000000, 0x0000000000000000, 0x0000000000000000),
    (0x0000000000000000, 0x0000000000000000, 0x0000000000000000, 0x0000000000000000),
    (0x49eb2a07b5da81b5, 0x7b7aa4fab19e691f, 0x9a684baef4cfb5af, 0xb6f46d23cbf1a9cd),
    (0x0000000000000000, 0x0000000000000000, 0x0000000000000000, 0x0000000000000000),
    (0x0000000000000000, 0x0000000000000000, 0x0000000000000000, 0x0000000000000000),
    (0x0000000000000000, 0x0000000000000000, 0x0000000000000000, 0x0000000000000000),
    (0x3051663ef7de7674, 0x506f2c8734097253, 0x63849564815b8bd2, 0x91f00b9c60b4daf0),
    (0x0000000000000000, 0x0000000000000000, 0x0000000000000000, 0x0000000000000000),
    (0x0000000000000000, 0x0000000000000000, 0x0000000000000000, 0x0000000000000000),
    (0x0000000000000000, 0x0000000000000000, 0x0000000000000000, 0x0000000000000000),
    (0x041a632a7bc167f6, 0x7ca9c3825021a05b, 0x13f81f814ee101d3, 0x7716e12efec3121f),
    (0x0000000000000000, 0x0000000000000000, 0x0000000000000000, 0x0000000000000000),
    (0x0000000000000000, 0x0000000000000000, 0x0000000000000000, 0x0000000000000000),
    (0x0000000000000000, 0x0000000000000000, 0x0000000000000000, 0x0000000000000000),
    (0x6a5ae006b70bfebc, 0x1a485eed2c078654, 0xdc0f10514e8c739c, 0xa2a7019f42444ce5),
    (0x0000000000000000, 0x0000000000000000, 0x0000000000000000, 0x0000000000000000),
    (0x0000000000000000, 0x0000000000000000, 0x0000000000000000, 0x0000000000000000),
    (0x0000000000000000, 0x0000000000000000, 0x0000000000000000, 0x0000000000000000),
    (0x0f3dba730b64dda2, 0xbc2eaa50ede0fcaa, 0x86a37c74c3a17be9, 0x7a9d969fca21fb37),
    (0x0000000000000000, 0x0000000000000000, 0x0000000000000000, 0x0000000000000000),
    (0x0000000000000000, 0x0000000000000000, 0x0000000000000000, 0x0000000000000000),
    (0x0000000000000000, 0x0000000000000000, 0x0000000000000000, 0x0000000000000000),
    (0x6d6c02004f2a4cbb, 0x965f9e73799041fa, 0xfb49f61aee66232f, 0x45ae09972af08e86),
    (0x0000000000000000, 0x0000000000000000, 0x0000000000000000, 0x0000000000000000),
    (0x0000000000000000, 0x0000000000000000, 0x0000000000000000, 0x0000000000000000),
    (0x0000000000000000, 0x0000000000000000, 0x0000000000000000, 0x0000000000000000),
    (0x60391f436a32fdb0, 0xeeba8578313579c0, 0x4c48c126f4eb6a0c, 0x49e249ff1c1fbf4a),
    (0x0000000000000000, 0x0000000000000000, 0x0000000000000000, 0x0000000000000000),
    (0x0000000000000000, 0x0000000000000000, 0x0000000000000000, 0x0000000000000000),
    (0x0000000000000000, 0x0000000000000000, 0x0000000000000000, 0x0000000000000000),
    (0x570a30710a42539d, 0x4440ce9a2cc7d9ac, 0x102409a188960d0f, 0xbd249fc4352bf3e5),
    (0x0000000000000000, 0x0000000000000000, 0x0000000000000000, 0x0000000000000000),
    (0x0000000000000000, 0x0000000000000000, 0x0000000000000000, 0x0000000000000000),
    (0x0000000000000000, 0x0000000000000000, 0x0000000000000000, 0x0000000000000000),
    (0x35cb6ce553525993, 0x32471ad8be46ddc0, 0xcf598e0e36b8a8fa, 0x5fae6f26277b318e),
    (0x0000000000000000, 0x0000000000000000, 0x0000000000000000, 0x0000000000000000),
    (0x0000000000000000, 0x0000000000000000, 0x0000000000000000, 0x0000000000000000),
    (0x0000000000000000, 0x0000000000000000, 0x0000000000000000, 0x0000000000000000),
    (0x48a8116b254b1710, 0x52251f353c93ca38, 0x16734e4e0baeea10, 0xb4269bbab9a2be55),
    (0x0000000000000000, 0x0000000000000000, 0x0000000000000000, 0x0000000000000000),
    (0x0000000000000000, 0x0000000000000000, 0x0000000000000000, 0x0000000000000000),
    (0x0000000000000000, 0x0000000000000000, 0x0000000000000000, 0x0000000000000000),
    (0x126258211a4bb203, 0x5121c7ca129eae71, 0x9d4ddfefa99921a8, 0xbefb7a160e0f845f),
    (0x0000000000000000, 0x0000000000000000, 0x0000000000000000, 0x0000000000000000),
    (0x0000000000000000, 0x0000000000000000, 0x0000000000000000, 0x0000000000000000),
    (0x0000000000000000, 0x0000000000000000, 0x0000000000000000, 0x0000000000000000),
    (0x5bf6985473bc5500, 0xf140844f5b66cea8, 0x5815772cce03596e, 0xda60e6c7dcb4ebbd),
    (0x0000000000000000, 0x0000000000000000, 0x0000000000000000, 0x0000000000000000),
    (0x0000000000000000, 0x0000000000000000, 0x0000000000000000, 0x0000000000000000),
    (0x0000000000000000, 0x0000000000000000, 0x0000000000000000, 0x0000000000000000),
    (0x5af46d3dd02261d8, 0x93c418582188d328, 0xa8a84ff8f6ac6c19, 0x97d3aaadf64220d9),
    (0x0000000000000000, 0x0000000000000000, 0x0000000000000000, 0x0000000000000000),
    (0x0000000000000000, 0x0000000000000000, 0x0000000000000000, 0x0000000000000000),
    (0x0000000000000000, 0x0000000000000000, 0x0000000000000000, 0x0000000000000000),
    (0x5e3c84925609016d, 0xa58df82c1f2b5159, 0x0e3b91e5502dca2e, 0xba13d8354916ddbe),
    (0x0000000000000000, 0x0000000000000000, 0x0000000000000000, 0x0000000000000000),
    (0x0000000000000000, 0x0000000000000000, 0x0000000000000000, 0x0000000000000000),
    (0x0000000000000000, 0x0000000000000000, 0x0000000000000000, 0x0000000000000000),
    (0x410e6fb4390379a8, 0xb726cfb22a9eaab7, 0x232bc4b60eaddb62, 0x9a4aacfc7dcdbfcf),
    (0x0000000000000000, 0x0000000000000000, 0x0000000000000000, 0x0000000000000000),
    (0x0000000000000000, 0x0000000000000000, 0x0000000000000000, 0x0000000000000000),
    (0x0000000000000000, 0x0000000000000000, 0x0000000000000000, 0x0000000000000000),
    (0x2ca5debb9de1c4bb, 0xfa0204543dd97572, 0x41611cd28b5eac2d, 0x7f37baa293fa2618),
    (0x0000000000000000, 0x0000000000000000, 0x0000000000000000, 0x0000000000000000),
    (0x0000000000000000, 0x0000000000000000, 0x0000000000000000, 0x0000000000000000),
    (0x0000000000000000, 0x0000000000000000, 0x0000000000000000, 0x0000000000000000),
    (0x4a1554023154a99b, 0x4572572ccd5d89fa, 0x8745c117a2a85e57, 0x86ef6ef39410d611),
    (0x0000000000000000, 0x0000000000000000, 0x0000000000000000, 0x0000000000000000),
    (0x0000000000000000, 0x0000000000000000, 0x0000000000000000, 0x0000000000000000),
    (0x0000000000000000, 0x0000000000000000, 0x0000000000000000, 0x0000000000000000),
    (0x2ca75fb22881b238, 0xb6c96da6b908f922, 0xda8b54f909237051, 0x775c64fec8d5920c),
    (0x0000000000000000, 0x0000000000000000, 0x0000000000000000, 0x0000000000000000),
    (0x0000000000000000, 0x0000000000000000, 0x0000000000000000, 0x0000000000000000),
    (0x0000000000000000, 0x0000000000000000, 0x0000000000000000, 0x0000000000000000),
    (0x546ea8ad3dffe14c, 0x4c96e4d6d8c43c64, 0x4212fb663486165b, 0x34cb26ddd717f341),
    (0x0000000000000000, 0x0000000000000000, 0x0000000000000000, 0x0000000000000000),
    (0x0000000000000000, 0x0000000000000000, 0x0000000000000000, 0x0000000000000000),
    (0x0000000000000000, 0x0000000000000000, 0x0000000000000000, 0x0000000000000000),
    (0x6b168ee87f2c532e, 0xfdb378116dfe462f, 0x632a18eccf1e9bcf, 0xc740d35e535b2735),
    (0x0000000000000000, 0x0000000000000000, 0x0000000000000000, 0x0000000000000000),
    (0x0000000000000000, 0x0000000000000000, 0x0000000000000000, 0x0000000000000000),
    (0x0000000000000000, 0x0000000000000000, 0x0000000000000000, 0x0000000000000000),
    (0x4cf917a780b85029, 0x2f44502b80865d36, 0x64d75213f89e8ae5, 0x861dbcb52aa95e76),
    (0x0000000000000000, 0x0000000000000000, 0x0000000000000000, 0x0000000000000000),
    (0x0000000000000000, 0x0000000000000000, 0x0000000000000000, 0x0000000000000000),
    (0x0000000000000000, 0x0000000000000000, 0x0000000000000000, 0x0000000000000000),
    (0x02e8dfe9046d8b95, 0x1532466bdf1b6257, 0x1b85e551b34c8bbf, 0xb1ccd3216271b73d),
    (0x0000000000000000, 0x0000000000000000, 0x0000000000000000, 0x0000000000000000),
    (0x0000000000000000, 0x0000000000000000, 0x0000000000000000, 0x0000000000000000),
    (0x0000000000000000, 0x0000000000000000, 0x0000000000000000, 0x0000000000000000),
    (0x4a34d2abd01f09f7, 0x43cc56a3f87febd6, 0x0ae5d88e224918d8, 0x40656da973d9252e),
    (0x0000000000000000, 0x0000000000000000, 0x0000000000000000, 0x0000000000000000),
    (0x0000000000000000, 0x0000000000000000, 0x0000000000000000, 0x0000000000000000),
    (0x0000000000000000, 0x0000000000000000, 0x0000000000000000, 0x0000000000000000),
    (0x0a3fad26c6318d47, 0x1fa376fbaf02d341, 0xe41e687db6f3da88, 0x266de21c7157e940),
    (0x0000000000000000, 0x0000000000000000, 0x0000000000000000, 0x0000000000000000),
    (0x0000000000000000, 0x0000000000000000, 0x0000000000000000, 0x0000000000000000),
    (0x0000000000000000, 0x0000000000000000, 0x0000000000000000, 0x0000000000000000),
    (0x131c9df7176eadb9, 0xaf3a14f0f53a9b87, 0x196ef60bbb89b363, 0x0142ff8d9d69137b),
    (0x0000000000000000, 0x0000000000000000, 0x0000000000000000, 0x0000000000000000),
    (0x0000000000000000, 0x0000000000000000, 0x0000000000000000, 0x0000000000000000),
    (0x0000000000000000, 0x0000000000000000, 0x0000000000000000, 0x0000000000000000),
    (0x5753682a8120106b, 0x42241c86deee8792, 0x63d81fe8e3423e01, 0xf567316d9524647e),
    (0x0000000000000000, 0x0000000000000000, 0x0000000000000000, 0x0000000000000000),
    (0x0000000000000000, 0x0000000000000000, 0x0000000000000000, 0x0000000000000000),
    (0x0000000000000000, 0x0000000000000000, 0x0000000000000000, 0x0000000000000000),
    (0x5ed9725af6a91090, 0x027acfc12100733a, 0x9dea89771048aa2d, 0xfe40daea9546645b),
    (0x0000000000000000, 0x0000000000000000, 0x0000000000000000, 0x0000000000000000),
    (0x0000000000000000, 0x0000000000000000, 0x0000000000000000, 0x0000000000000000),
    (0x0000000000000000, 0x0000000000000000, 0x0000000000000000, 0x0000000000000000),
    (0x2c7b7a87f31ebd24, 0x64be9f211d41719b, 0x453939d53ff7be07, 0xa2cc21741d48b467),
    (0x0000000000000000, 0x0000000000000000, 0x0000000000000000, 0x0000000000000000),
    (0x0000000000000000, 0x0000000000000000, 0x0000000000000000, 0x0000000000000000),
    (0x0000000000000000, 0x0000000000000000, 0x0000000000000000, 0x0000000000000000),
    (0x118159eb07353fef, 0x60e9733077cc82f9, 0x2a6e2bd361c88d81, 0x22e9a292217757e0),
    (0x0000000000000000, 0x0000000000000000, 0x0000000000000000, 0x0000000000000000),
    (0x0000000000000000, 0x0000000000000000, 0x0000000000000000, 0x0000000000000000),
    (0x0000000000000000, 0x0000000000000000, 0x0000000000000000, 0x0000000000000000),
    (0x5b4626e787d4a4b0, 0x0ba4693fd7900eca, 0xa19624be9f2fee6b, 0x9c3b538d4f896b8a),
    (0x0000000000000000, 0x0000000000000000, 0x0000000000000000, 0x0000000000000000),
    (0x0000000000000000, 0x0000000000000000, 0x0000000000000000, 0x0000000000000000),
    (0x0000000000000000, 0x0000000000000000, 0x0000000000000000, 0x0000000000000000),
    (0x18cad22ae06bb0e8, 0xd043f7928477219e, 0x4d38ac544ce81c4c, 0x685267089e4c7003),
    (0x0000000000000000, 0x0000000000000000, 0x0000000000000000, 0x0000000000000000),
    (0x0000000000000000, 0x0000000000000000, 0x0000000000000000, 0x0000000000000000),
    (0x0000000000000000, 0x0000000000000000, 0x0000000000000000, 0x0000000000000000),
    (0x0511149594758e78, 0x9b440ce534b52b6c, 0x508ae1881669d1fa, 0x4a7e551ef84e4dc4),
    (0x0000000000000000, 0x0000000000000000, 0x0000000000000000, 0x0000000000000000),
    (0x0000000000000000, 0x0000000000000000, 0x0000000000000000, 0x0000000000000000),
    (0x0000000000000000, 0x0000000000000000, 0x0000000000000000, 0x0000000000000000),
    (0x428b8532efa194a7, 0xf5cbf4c296786346, 0xddfcfe8f2bab26f2, 0x5321f5d984dfc307),
    (0x0000000000000000, 0x0000000000000000, 0x0000000000000000, 0x0000000000000000),
    (0x0000000000000000, 0x0000000000000000, 0x0000000000000000, 0x0000000000000000),
    (0x0000000000000000, 0x0000000000000000, 0x0000000000000000, 0x0000000000000000),
    (0x00fd035cc129e91e, 0xac66d841e2864989, 0xd1ff485366216614, 0x3535603bf9460621),
    (0x0000000000000000, 0x0000000000000000, 0x0000000000000000, 0x0000000000000000),
    (0x0000000000000000, 0x0000000000000000, 0x0000000000000000, 0x0000000000000000),
    (0x0000000000000000, 0x0000000000000000, 0x0000000000000000, 0x0000000000000000),
    (0x2c16756511447541, 0x2c76f0df1961eaca, 0x9deb17622c9fb6f5, 0xac8a89a29f42df69),
    (0x0000000000000000, 0x0000000000000000, 0x0000000000000000, 0x0000000000000000),
    (0x0000000000000000, 0x0000000000000000, 0x0000000000000000, 0x0000000000000000),
    (0x0000000000000000, 0x0000000000000000, 0x0000000000000000, 0x0000000000000000),
    (0x10cac3ff02125419, 0xac84ff80295589d1, 0x124a1e65a94e8d9b, 0x63a411317c7f5728),
    (0x0000000000000000, 0x0000000000000000, 0x0000000000000000, 0x0000000000000000),
    (0x0000000000000000, 0x0000000000000000, 0x0000000000000000, 0x0000000000000000),
    (0x0000000000000000, 0x0000000000000000, 0x0000000000000000, 0x0000000000000000),
    (0x7213c2f17aec536d, 0x0a5196e877d1626a, 0x63d7db5b4e3bd773, 0x27eb3617b932aee7),
    (0x0000000000000000, 0x0000000000000000, 0x0000000000000000, 0x0000000000000000),
    (0x0000000000000000, 0x0000000000000000, 0x0000000000000000, 0x0000000000000000),
    (0x0000000000000000, 0x0000000000000000, 0x0000000000000000, 0x0000000000000000),
    (0x1b86ee2e45fbcd59, 0xfa43edee6630dda5, 0xcb3b894eb4701eff, 0x5fd53967abad2666),
    (0x0000000000000000, 0x0000000000000000, 0x0000000000000000, 0x0000000000000000),
    (0x0000000000000000, 0x0000000000000000, 0x0000000000000000, 0x0000000000000000),
    (0x0000000000000000, 0x0000000000000000, 0x0000000000000000, 0x0000000000000000),
    (0x0b941850091bd168, 0x75f408f183fb93d2, 0x50c538e5ee1e8979, 0xe960b5b499b2f070),
    (0x0000000000000000, 0x0000000000000000, 0x0000000000000000, 0x0000000000000000),
    (0x0000000000000000, 0x0000000000000000, 0x0000000000000000, 0x0000000000000000),
    (0x0000000000000000, 0x0000000000000000, 0x0000000000000000, 0x0000000000000000),
    (0x031f75d53bdd5ac6, 0x03c252925148a74f, 0xa5f3bf5d9ffabe64, 0xc6e932be904204ec),
    (0x0000000000000000, 0x0000000000000000, 0x0000000000000000, 0x0000000000000000),
    (0x0000000000000000, 0x0000000000000000, 0x0000000000000000, 0x0000000000000000),
    (0x0000000000000000, 0x0000000000000000, 0x0000000000000000, 0x0000000000000000),
    (0x55296a48dd399c65, 0x798cdbda11e89f26, 0xf998f2d33cf328e8, 0x7a1c364e05be492b),
    (0x0000000000000000, 0x0000000000000000, 0x0000000000000000, 0x0000000000000000),
    (0x0000000000000000, 0x0000000000000000, 0x0000000000000000, 0x0000000000000000),
    (0x0000000000000000, 0x0000000000000000, 0x0000000000000000, 0x0000000000000000),
    (0x191175ec337e64a4, 0x8785a08355917616, 0x8bcea3db2822630c, 0x48f1d497d03e1e35),
    (0x0000000000000000, 0x0000000000000000, 0x0000000000000000, 0x0000000000000000),
    (0x0000000000000000, 0x0000000000000000, 0x0000000000000000, 0x0000000000000000),
    (0x0000000000000000, 0x0000000000000000, 0x0000000000000000, 0x0000000000000000),
    (0x33200b518e6b1a1e, 0x96ba214cad18929e, 0x7f5b4e3336e522c5, 0xfa1febf69c0818c6),
    (0x0000000000000000, 0x0000000000000000, 0x0000000000000000, 0x0000000000000000),
    (0x0000000000000000, 0x0000000000000000, 0x0000000000000000, 0x0000000000000000),
    (0x0000000000000000, 0x0000000000000000, 0x0000000000000000, 0x0000000000000000),
    (0x2f989e24f97dc06c, 0x075bb53404e3eaaa, 0xe32a1b6d89d9e09a, 0xcdeee65712aa4216),
    (0x0000000000000000, 0x0000000000000000, 0x0000000000000000, 0x0000000000000000),
    (0x0000000000000000, 0x0000000000000000, 0x0000000000000000, 0x0000000000000000),
    (0x0000000000000000, 0x0000000000000000, 0x0000000000000000, 0x0000000000000000),
    (0x0de4b77163f1572b, 0xbaa325f48bde7a42, 0x9b6b0f803ade45a0, 0xe72cd2bdbd84680c),
    (0x0000000000000000, 0x0000000000000000, 0x0000000000000000, 0x0000000000000000),
    (0x0000000000000000, 0x0000000000000000, 0x0000000000000000, 0x0000000000000000),
    (0x0000000000000000, 0x0000000000000000, 0x0000000000000000, 0x0000000000000000),
    (0x6af270d408f49240, 0x2b7271432b6c443a, 0xbbd1f0e220888d73, 0xf47498d59044d7cc),
    (0x3d5b5310e7b6be63, 0xbe8f12594ecd6810, 0x8f4b3f6266683b13, 0x178d0c80d8530c2f),
    (0x5f69d748d06e2291, 0x6088bd21fb472334, 0xddbe5223ff494b6c, 0x0dcdf62db69d43ac),
    (0x6c1fd7dbb3298da8, 0x6dfe5d0435b26e0a, 0x91fe6ad6aa25b940, 0x7d5da544e6b9cd27),
    (0x37172dd49bf14ebc, 0xa52e1c31b60f31de, 0x8213644e330bcf2c, 0xc59684606e62537d),
    (0x509cf829b68e5886, 0x1c3d6bce6046ac1b, 0x6e9c065378fe9556, 0x348c0c1814808e20),
    (0x529d5dd132f5cb4b, 0x71994ae6b330b794, 0x4f0fd8ba319582d2, 0x414b9b10768b7448),
    (0x5d251391abee2288, 0x33dbd24be99d163b, 0xa9f8c92a2cf73a4e, 0x1f8a87e9c4ca97ba),
    (0x1abe1d77226f2eff, 0x6f1a6bfc6c8d9e00, 0xdde1da9d67858e69, 0x84e53bc2aceba535),
    (0x4ca74ba72baea6d8, 0x4fa8f2a05e387a1c, 0x41a5a1b2f1a479fb, 0x11bbf9d5e09bd01a),
    (0x232bfa6a31202248, 0x14967315ebf3d8c8, 0x8b2eb0ea8c20c79c, 0xe854f90aec7a9b91),
    (0x109f5bd722c8cf28, 0xab6a3852970bcb66, 0x5f398a8dc9d33195, 0x8dc291d49a1ba9b4),
    (0x4a181a5de6c79a05, 0xc02533350ab51dee, 0xe24b8f5b9154c5cf, 0x09ba5e25862ae176),
    (0x6e063b99c16028df, 0x94b1eb719164ae8c, 0x8336894791516ca2, 0xc37c5a1a394bb0d7),
    (0x6bbd2d3a643d301d, 0x25a8cf156542165a, 0xbee3039068fecf50, 0x1e9d39f313ca2a87),
    (0x04690fe1be7c7b8c, 0x10c81e63f5e508fe, 0x93853c61f0435f81, 0xeabc9997fa3b99f3),
];

} // verus!
