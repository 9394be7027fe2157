//! The parameter table of Poseidon: for each field and width the number
//! of rounds, the MDS matrix and the round constants.
//!
//! The tables are those of the circom instances of Poseidon: the output of
//! the Grain LFSR that the Poseidon paper prescribes, for an S-box of degree
//! 5, eight full rounds and the number of partial rounds given here.

use crate::field::Field;
use crate::host::{rows, HostMatrix};
use crate::table::{grid, host_matrix, Limbs};
use vstd::prelude::*;

verus! {

/// The degree of the S-box.
pub const SBOX_D: u32 = 5;

/// The number of full rounds, the same for every field and width.
pub const ROUNDS_F: u32 = 8;

/// The widths that the table has entries for.
pub open spec fn supported_width(width: u32) -> bool {
    2 <= width <= 6
}

/// The number of partial rounds for a field and a supported width.
pub open spec fn spec_rounds_p(field: Field, width: u32) -> u32 {
    match field {
        Field::Bn254 => {
            if width == 5 || width == 6 {
                60
            } else if width == 3 {
                57
            } else {
                56
            }
        },
        Field::Bls12381 => {
            if width == 6 {
                57
            } else {
                56
            }
        },
    }
}

/// The number of partial rounds for a field and a supported width.
pub(crate) fn rounds_p(field: Field, width: u32) -> (n: u32)
    requires
        supported_width(width),
    ensures
        n == spec_rounds_p(field, width),
{
    match field {
        Field::Bn254 => {
            if width == 5 || width == 6 {
                60
            } else if width == 3 {
                57
            } else {
                56
            }
        },
        Field::Bls12381 => {
            if width == 6 {
                57
            } else {
                56
            }
        },
    }
}

/// The entries of the MDS matrix for a field and a supported width.
pub closed spec fn mds_flat(field: Field, width: u32) -> Seq<Limbs> {
    match field {
        Field::Bn254 => {
            if width == 2 {
                MDS_BN254_T_2@
            } else if width == 3 {
                MDS_BN254_T_3@
            } else if width == 4 {
                MDS_BN254_T_4@
            } else if width == 5 {
                MDS_BN254_T_5@
            } else {
                MDS_BN254_T_6@
            }
        },
        Field::Bls12381 => {
            if width == 2 {
                MDS_BLS12_381_T_2@
            } else if width == 3 {
                MDS_BLS12_381_T_3@
            } else if width == 4 {
                MDS_BLS12_381_T_4@
            } else if width == 5 {
                MDS_BLS12_381_T_5@
            } else {
                MDS_BLS12_381_T_6@
            }
        },
    }
}

/// The entries of the round constants for a field and a supported width.
pub closed spec fn rc_flat(field: Field, width: u32) -> Seq<Limbs> {
    match field {
        Field::Bn254 => {
            if width == 2 {
                RC_BN254_T_2@
            } else if width == 3 {
                RC_BN254_T_3@
            } else if width == 4 {
                RC_BN254_T_4@
            } else if width == 5 {
                RC_BN254_T_5@
            } else {
                RC_BN254_T_6@
            }
        },
        Field::Bls12381 => {
            if width == 2 {
                RC_BLS12_381_T_2@
            } else if width == 3 {
                RC_BLS12_381_T_3@
            } else if width == 4 {
                RC_BLS12_381_T_4@
            } else if width == 5 {
                RC_BLS12_381_T_5@
            } else {
                RC_BLS12_381_T_6@
            }
        },
    }
}

/// The MDS matrix for a field and a supported width: `width` rows of `width`
/// numbers.
pub open spec fn mds(field: Field, width: u32) -> Seq<Seq<nat>> {
    grid(mds_flat(field, width), width as nat, width as nat)
}

/// The round constants for a field and a supported width: for each round a row
/// of `width` numbers.
pub open spec fn round_constants(field: Field, width: u32) -> Seq<Seq<nat>> {
    grid(
        rc_flat(field, width),
        (ROUNDS_F + spec_rounds_p(field, width)) as nat,
        width as nat,
    )
}

/// What the table holds for each field and width, entry by entry.
pub proof fn lemma_table_entries()
    ensures
        mds_flat(Field::Bn254, 2) == MDS_BN254_T_2@,
        rc_flat(Field::Bn254, 2) == RC_BN254_T_2@,
        mds_flat(Field::Bn254, 3) == MDS_BN254_T_3@,
        rc_flat(Field::Bn254, 3) == RC_BN254_T_3@,
        mds_flat(Field::Bn254, 4) == MDS_BN254_T_4@,
        rc_flat(Field::Bn254, 4) == RC_BN254_T_4@,
        mds_flat(Field::Bn254, 5) == MDS_BN254_T_5@,
        rc_flat(Field::Bn254, 5) == RC_BN254_T_5@,
        mds_flat(Field::Bn254, 6) == MDS_BN254_T_6@,
        rc_flat(Field::Bn254, 6) == RC_BN254_T_6@,
        mds_flat(Field::Bls12381, 2) == MDS_BLS12_381_T_2@,
        rc_flat(Field::Bls12381, 2) == RC_BLS12_381_T_2@,
        mds_flat(Field::Bls12381, 3) == MDS_BLS12_381_T_3@,
        rc_flat(Field::Bls12381, 3) == RC_BLS12_381_T_3@,
        mds_flat(Field::Bls12381, 4) == MDS_BLS12_381_T_4@,
        rc_flat(Field::Bls12381, 4) == RC_BLS12_381_T_4@,
        mds_flat(Field::Bls12381, 5) == MDS_BLS12_381_T_5@,
        rc_flat(Field::Bls12381, 5) == RC_BLS12_381_T_5@,
        mds_flat(Field::Bls12381, 6) == MDS_BLS12_381_T_6@,
        rc_flat(Field::Bls12381, 6) == RC_BLS12_381_T_6@,
{
}

/// The MDS matrix for a field and a supported width, as a host matrix.
pub(crate) fn get_mds(env: &soroban_sdk::Env, field: Field, width: u32) -> (m: HostMatrix)
    requires
        supported_width(width),
    ensures
        rows(m) == mds(field, width),
{
    match field {
        Field::Bn254 => {
            if width == 2 {
                host_matrix(env, MDS_BN254_T_2.as_slice(), 2, 2)
            } else if width == 3 {
                host_matrix(env, MDS_BN254_T_3.as_slice(), 3, 3)
            } else if width == 4 {
                host_matrix(env, MDS_BN254_T_4.as_slice(), 4, 4)
            } else if width == 5 {
                host_matrix(env, MDS_BN254_T_5.as_slice(), 5, 5)
            } else {
                host_matrix(env, MDS_BN254_T_6.as_slice(), 6, 6)
            }
        },
        Field::Bls12381 => {
            if width == 2 {
                host_matrix(env, MDS_BLS12_381_T_2.as_slice(), 2, 2)
            } else if width == 3 {
                host_matrix(env, MDS_BLS12_381_T_3.as_slice(), 3, 3)
            } else if width == 4 {
                host_matrix(env, MDS_BLS12_381_T_4.as_slice(), 4, 4)
            } else if width == 5 {
                host_matrix(env, MDS_BLS12_381_T_5.as_slice(), 5, 5)
            } else {
                host_matrix(env, MDS_BLS12_381_T_6.as_slice(), 6, 6)
            }
        },
    }
}

/// The round constants for a field and a supported width, as a host matrix.
pub(crate) fn get_rc(env: &soroban_sdk::Env, field: Field, width: u32) -> (m: HostMatrix)
    requires
        supported_width(width),
    ensures
        rows(m) == round_constants(field, width),
{
    match field {
        Field::Bn254 => {
            if width == 2 {
                host_matrix(env, RC_BN254_T_2.as_slice(), 64, 2)
            } else if width == 3 {
                host_matrix(env, RC_BN254_T_3.as_slice(), 65, 3)
            } else if width == 4 {
                host_matrix(env, RC_BN254_T_4.as_slice(), 64, 4)
            } else if width == 5 {
                host_matrix(env, RC_BN254_T_5.as_slice(), 68, 5)
            } else {
                host_matrix(env, RC_BN254_T_6.as_slice(), 68, 6)
            }
        },
        Field::Bls12381 => {
            if width == 2 {
                host_matrix(env, RC_BLS12_381_T_2.as_slice(), 64, 2)
            } else if width == 3 {
                host_matrix(env, RC_BLS12_381_T_3.as_slice(), 64, 3)
            } else if width == 4 {
                host_matrix(env, RC_BLS12_381_T_4.as_slice(), 64, 4)
            } else if width == 5 {
                host_matrix(env, RC_BLS12_381_T_5.as_slice(), 64, 5)
            } else {
                host_matrix(env, RC_BLS12_381_T_6.as_slice(), 65, 6)
            }
        },
    }
}

/// The MDS matrix for BN254 and width 2, row after row.
pub const MDS_BN254_T_2: [Limbs; 4] = [
    (0x066f6f85d6f68a85, 0xec10345351a23a3a, 0xaf07f38af8c952a7, 0xbceca70bd2af7ad5),
    (0x2b9d4b4110c9ae99, 0x7782e1509b1d0fdb, 0x20a7c02bbd8bea73, 0x05462b9f8125b1e8),
    (0x0cc57cdbb08507d6, 0x2bf67a4493cc262f, 0xb6c09d557013fff1, 0xf573f431221f8ff9),
    (0x1274e649a32ed355, 0xa31a6ed69724e1ad, 0xade857e86eb5c3a1, 0x21bcd147943203c8),
];

/// The round constants for BN254 and width 2, round after round.
pub const RC_BN254_T_2: [Limbs; 128] = [
    (0x09c46e9ec68e9bd4, 0xfe1faaba294cba38, 0xa71aa177534cdd1b, 0x6c7dc0dbd0abd7a7),
    (0x0c0356530896eec4, 0x2a97ed937f3135cf, 0xc5142b3ae405b834, 0x3c1d83ffa604cb81),
    (0x1e28a1d935698ad1, 0x142e51182bb54cf4, 0xa00ea5aabd6268bd, 0x317ea977cc154a30),
    (0x27af2d831a9d2748, 0x080965db30e298e4, 0x0e5757c3e008db96, 0x4cf9e2b12b91251f),
    (0x1e6f11ce60fc8f51, 0x3a6a3cfe16ae175a, 0x41291462f214cd08, 0x79aaf43545b74e03),
    (0x2a67384d3bbd5e43, 0x8541819cb681f0be, 0x04462ed14c3613d8, 0xf719206268d142d3),
    (0x0b66fdf356093a61, 0x1609f8e12fbfecf0, 0xb985e381f0251889, 0x36408f5d5c9f45d0),
    (0x012ee3ec1e78d470, 0x830c61093c2ade37, 0x0b26c83cc5cebeed, 0xdaa6852dbdb09e21),
    (0x0252ba5f6760bfbd, 0xfd88f67f8175e3fd, 0x6cd1c431b099b6bb, 0x2d108e7b445bb1b9),
    (0x179474cceca5ff67, 0x6c6bec3cef542963, 0x54391a8935ff71d6, 0xef5aeaad7ca932f1),
    (0x2c24261379a51bfa, 0x9228ff4a503fd4ed, 0x9c1f974a264969b3, 0x7e1a2589bbed2b91),
    (0x1cc1d7b62692e63e, 0xac2f288bd0695b43, 0xc2f63f5001fc0fc5, 0x53e66c0551801b05),
    (0x255059301aada98b, 0xb2ed55f852979e96, 0x00784dbf17fbacd0, 0x5d9eff5fd9c91b56),
    (0x28437be3ac1cb2e4, 0x79e1f5c0eccd32b3, 0xaea24234970a8193, 0xb11c29ce7e59efd9),
    (0x28216a442f2e1f71, 0x1ca4fa6b53766eb1, 0x18548da8fb4f78d4, 0x338762c37f5f2043),
    (0x2c1f47cd17fa5adf, 0x1f39f4e7056dd03f, 0xeee1efce03094581, 0x131f2377323482c9),
    (0x07abad02b7a5ebc4, 0x8632bcc9356ceb7d, 0xd9dafca276638a63, 0x646b8566a621afc9),
    (0x0230264601ffdf29, 0x275b33ffaab51dfe, 0x9429f90880a69cd1, 0x37da0c4d15f96c3c),
    (0x1bc973054e51d905, 0xa0f168656497ca40, 0xa864414557ee289e, 0x717e5d66899aa0a9),
    (0x2e1c22f964435008, 0x206c3157e86341ed, 0xd249aff5c2d8421f, 0x2a6b22288f0a67fc),
    (0x1224f38df67c5378, 0x121c1d5f461bbc50, 0x9e8ea1598e46c9f7, 0xa70452bc2bba86b8),
    (0x02e4e69d8ba59e51, 0x9280b4bd9ed0068f, 0xd7bfe8cd9dfeda19, 0x69d2989186cde20e),
    (0x1f1eccc34aaba013, 0x7f5df81fc04ff3ee, 0x4f19ee364e653f07, 0x6d47e9735d98018e),
    (0x1672ad3d709a3539, 0x74266c3039a9a731, 0x1424448032cd1819, 0xeacb8a4d4284f582),
    (0x283e3fdc2c6e420c, 0x56f44af5192b4ae9, 0xcda6961f284d2499, 0x1d2ed602df8c8fc7),
    (0x1c2a3d120c550ecf, 0xd0db0957170fa013, 0x683751f8fdff59d6, 0x614fbd69ff394bcc),
    (0x216f84877aac6172, 0xf7897a7323456efe, 0x143a9a43773ea6f2, 0x96cb6b8177653fbd),
    (0x2c0d272becf2a757, 0x64ba7e8e3e28d12b, 0xceaa47ea61ca59a4, 0x11a1f51552f94788),
    (0x16e34299865c0e28, 0x484ee7a74c454e9f, 0x170a5480abe0508f, 0xcb4a6c3d89546f43),
    (0x175ceba599e96f5b, 0x375a232a6fb9cc71, 0x772047765802290f, 0x48cd939755488fc5),
    (0x0c7594440dc48c16, 0xfead9e1758b02806, 0x6aa410bfbc354f54, 0xd8c5ffbb44a1ee32),
    (0x1a3c29bc39f21bb5, 0xc466db7d7eb6fd8f, 0x760e20013ccf912c, 0x92479882d919fd8d),
    (0x0ccfdd906f3426e5, 0xc0986ea049b25340, 0x0855d349074f5a66, 0x95c8eeabcd22e68f),
    (0x14f6bc81d9f186f6, 0x2bdb475ce6c94118, 0x66a7a8a3fd065b3c, 0xe0e699b67dd9e796),
    (0x0962b82789fb3d12, 0x9702ca70b2f6c5aa, 0xcc099810c9c495c8, 0x88edeb7386b97052),
    (0x1a880af7074d18b3, 0xbf20c79de25127bc, 0x13284ab01ef02575, 0xafef0c8f6a31a86d),
    (0x10cba18419a6a332, 0xcd5e77f0211c154b, 0x20af2924fc20ff3f, 0x4c3012bb7ae9311b),
    (0x057e62a9a8f89b3e, 0xbdc76ba63a9eaca8, 0xfa27b7319cae3406, 0x756a2849f302f10d),
    (0x287c971de91dc0ab, 0xd44adf5384b4988c, 0xb961303bbf65cff5, 0xafa0413b44280cee),
    (0x21df3388af1687bb, 0xb3bca9da0cca908f, 0x1e562bc46d4aba4e, 0x6f7f7960e306891d),
    (0x1be5c887d25bce70, 0x3e25cc974d0934cd, 0x789df8f70b498fd8, 0x3eff8b560e1682b3),
    (0x268da36f76e568fb, 0x68117175cea2cd0d, 0xd2cb5d42fda5acea, 0x48d59c2706a0d5c1),
    (0x0e17ab091f6eae50, 0xc609beaf5510ecec, 0xc5d8bb74135ebd05, 0xbd06460cc26a5ed6),
    (0x04d727e728ffa0a6, 0x7aee535ab074a430, 0x91ef62d8cf83d270, 0x040f5caa1f62af40),
    (0x0ddbd7bf9c293415, 0x81b549762bc022ed, 0x33702ac10f1bfd86, 0x2b15417d7e39ca6e),
    (0x2790eb3351621752, 0x768162e82989c6c2, 0x34f5b0d1d3af9b58, 0x8a29c49c8789654b),
    (0x1e457c601a63b73e, 0x4471950193d8a570, 0x395f3d9ab8b2fd09, 0x84b764206142f9e9),
    (0x21ae64301dca9625, 0x638d6ab2bbe7135f, 0xfa90ecd0c43ff91f, 0xc4c686fc46e091b0),
    (0x0379f63c8ce3468d, 0x4da293166f494928, 0x854be9e3432e0955, 0x5858534eed8d350b),
    (0x002d56420359d026, 0x6a744a080809e054, 0xca0e4921a46686ac, 0x8c9f58a324c35049),
    (0x123158e5965b5d9b, 0x1d68b3cd32e10bbe, 0xda8d62459e21f409, 0x0fc2c5af963515a6),
    (0x0be29fc40847a941, 0x661d14bbf6cbe042, 0x0fbb2b6f52836d4e, 0x60c80eb49cad9ec1),
    (0x1ac96991dec2bb05, 0x57716142015a453c, 0x36db9d859cad5f9a, 0x233802f24fdf4c1a),
    (0x1596443f763dbcc2, 0x5f4964fc61d23b3e, 0x5e12c9fa97f18a92, 0x51ca3355bcb0627e),
    (0x12e0bcd3654bdfa7, 0x6b2861d4ec3aeae0, 0xf1857d9f17e715ae, 0xd6d049eae3ba3212),
    (0x0fc92b4f1bbea82b, 0x9ea73d4af9af2a50, 0xceabac7f37154b19, 0x04e6c76c7cf964ba),
    (0x1f9c0b1610446442, 0xd6f2e592a8013f40, 0xb14f7c7722236f4f, 0x9c7e965233872762),
    (0x0ebd74244ae72675, 0xf8cde06157a782f4, 0x050d914da38b4c05, 0x8d159f643dbbf4d3),
    (0x2cb7f0ed39e16e9f, 0x69a9fafd4ab951c0, 0x3b0671e97346ee39, 0x7a839839dccfc6d1),
    (0x1a9d6e2ecff022cc, 0x5605443ee41bab20, 0xce761d0514ce5266, 0x90c72bca7352d9bf),
    (0x2a115439607f335a, 0x5ea83c3bc44a9331, 0xd0c13326a9a7ba30, 0x87da182d648ec72f),
    (0x23f9b6529b5d040d, 0x15b8fa7aee3e3410, 0xe738b56305cd44f2, 0x9535c115c5a4c060),
    (0x05872c16db0f72a2, 0x249ac6ba484bb9c3, 0xa3ce97c16d58b68b, 0x260eb939f0e6e8a7),
    (0x1300bdee08bb7824, 0xca20fb80118075f4, 0x0219b6151d55b5c5, 0x2b624a7cdeddf6a7),
    (0x19b9b63d2f108e17, 0xe63817863a8f6c28, 0x8d7ad29916d98cb1, 0x072e4e7b7d52b376),
    (0x015bee1357e3c015, 0xb5bda237668522f6, 0x13d1c88726b5ec42, 0x24a20128481b4f7f),
    (0x2953736e94bb6b9f, 0x1b9707a4f1615e4e, 0xfe1e1ce4bab218cb, 0xea92c785b128ffd1),
    (0x0b069353ba091618, 0x862f806180c0385f, 0x851b98d372b45f54, 0x4ce7266ed6608dfc),
    (0x304f74d461ccc131, 0x15e4e0bcfb93817e, 0x55aeb7eb9306b64e, 0x4f588ac97d81f429),
    (0x15bbf146ce9bca09, 0xe8a33f5e77dfe4f5, 0xaad2a164a4617a4c, 0xb8ee5415cde913fc),
    (0x0ab4dfe0c2742cde, 0x44901031487964ed, 0x9b8f4b850405c10c, 0xa9ff23859572c8c6),
    (0x0e32db320a044e31, 0x97f45f7649a19675, 0xef5eedfea546dea9, 0x251de39f9639779a),
    (0x0a1756aa1f378ca4, 0xb27635a78b6888e6, 0x6797733a82774896, 0xa3078efa516da016),
    (0x044c4a33b10f6934, 0x47fd17177f952ef8, 0x95e61d328f85efa9, 0x4254d6a2a25d93ef),
    (0x2ed3611b725b8a70, 0xbe655b537f66f700, 0xfe0879d79a496891, 0xd37b07b5466c4b8b),
    (0x1f9ba4e8bab7ce42, 0xc8ecc3d722aa2e0e, 0xadfdeb9cfdd347b5, 0xd8339ea7120858aa),
    (0x1b233043052e8c28, 0x8f7ee907a84e518a, 0xa38e82ac4502066d, 0xb74056f865c5d3da),
    (0x2431e1cc164bb8d0, 0x74031ab72bd55b4c, 0x902053bfc0f14db0, 0xca2f97b020875954),
    (0x082f934c91f5aac3, 0x30cd6953a0a7db45, 0xa13e322097583319, 0xa791f273965801fd),
    (0x2b9a0a223e7538b0, 0xa34be074315542a3, 0xc77245e2ae7cbe99, 0x9ad6bb930c48997c),
    (0x0e1cd91edd2cfa2c, 0xceb85483b887a9be, 0x8164163e75a8a00e, 0xb0b589cc70214e7d),
    (0x2e1eac0f2bfdfd63, 0xc951f61477e36989, 0x99774f19854d00f5, 0x88d324601cebe2f9),
    (0x0cbfa95f37fb7406, 0x0c76158e769d6d15, 0x7345784d8efdb33c, 0x23d748115b500b83),
    (0x08f05b3be923ed44, 0xd65ad49d8a61e9a6, 0x76d991e3a77513d9, 0x980c232dfa4a4f84),
    (0x22719e2a070bcd08, 0x52bf8e21984d0443, 0xe7284925dc0758a3, 0x25a2dd510c047ef6),
    (0x041f596a9ee1cb2b, 0xc060f7fcc3a1ab4c, 0x7bdbf036119982c0, 0xf41f62b2f26830c0),
    (0x233fd35de1be520a, 0x87628eb06f6b1d4c, 0x021be1c2d0dc464a, 0x19fcdd0986b10f89),
    (0x0524b46d1aa87a5e, 0x4325e0a423ebc810, 0xd31e078aa1b4707e, 0xefcb453c61c9c267),
    (0x2c34f424c81e5716, 0xce47fcac894b8582, 0x4227bb954b0f3199, 0xcc4486237c515211),
    (0x0b5f2a4b63387819, 0x207effc2b5541fb7, 0x2dd2025b5457cc97, 0xf33010327de4915e),
    (0x22207856082ccc54, 0xc5b72fe439d2cfd6, 0xc17435d2f57af6ce, 0xaefac41fe05c659f),
    (0x24d57a8bf5da63fe, 0x4e24159b7f8950b5, 0xcdfb210194caf79f, 0x27854048ce2c8171),
    (0x0afab181fdd5e058, 0x3b371d75bd693f98, 0x374ad7097bb01a85, 0x73919bb23b79396e),
    (0x2dba9b108f208772, 0x998a52efac7cbd56, 0x76c0057194c16c0b, 0xf16290d62b1128ee),
    (0x26349b66edb8b16f, 0x56f881c788f53f83, 0xcbb83de0bd592b25, 0x5aff13e6bce420b3),
    (0x25af7ce0e5e10357, 0x685e95f92339753a, 0xd81a56d28ecc193b, 0x235288a3e6f137db),
    (0x25b4ce7bd2294390, 0xc094d6a55edd68b9, 0x70eed7aae88b2bff, 0x1f7c0187fe35011f),
    (0x22c543f10f6c89ec, 0x387e53f1908a88e5, 0xde9cef28ebdf30b1, 0x8cb9d54c1e02b631),
    (0x0236f93e7789c472, 0x4fc7908a9f191e1e, 0x425e906a919d7a34, 0xdf668e74882f87a9),
    (0x29350b401166ca01, 0x0e7d27e37d05da99, 0x652bdae114eb0165, 0x9cb497af980c4b52),
    (0x0eed787d65820d3f, 0x6bd31bbab547f75a, 0x65edb75d844ebb89, 0xee1260916652363f),
    (0x07cc1170f13b46f2, 0x036a753f520b3291, 0xfdcd0e99bd94297d, 0x1906f656f4de6fad),
    (0x22b939233b1d7205, 0xf49bcf613a3d30b1, 0x908786d7f9f5d10c, 0x2059435689e8acea),
    (0x01451762a0aab81c, 0x8aad1dc8bc33e870, 0x740f083a5aa85438, 0xadd650ace60ae5a6),
    (0x23506bb5d8727d44, 0x61fabf1025d46d1f, 0xe32eaa61dec7da57, 0xe704fec0892fce89),
    (0x2e484c44e838aea0, 0xbac06ae3f71bdd09, 0x2a3709531e1efea9, 0x7f8bd68907355522),
    (0x0f4bc7d07ebafd64, 0x379e78c50bd2e42b, 0xaf4a594545cedc25, 0x45418da26835b54c),
    (0x1f4d3c8f6583e9e5, 0xfa76637862faaee8, 0x51582388725df460, 0xe620996d50d8e74e),
    (0x093514e0c70711f8, 0x2660d07be0e4a988, 0xfae02abc7b681d91, 0x53eb9bcb48fe7389),
    (0x1adab0c8e2b3bad3, 0x46699a2b5f3bc036, 0x43ee83ece47228f2, 0x4a58e0a347e153d8),
    (0x1672b1726057d99d, 0xd14709ebb474641a, 0x378c1b94b8072bac, 0x1a22dbef9e80dad2),
    (0x1dfd53d4576af2e3, 0x8f44f53fdcab468c, 0xc5d8e2fae0acc4ee, 0x30d47b239b479c14),
    (0x0c6888a10b75b0f3, 0xa70a36263a37e17f, 0xe6d77d640f6fc3de, 0xbc7f207753205c60),
    (0x1addb933a65be770, 0x92b34a7e77d12fe8, 0x611a61e00ee6848b, 0x85091ecca9d1e508),
    (0x00d7540dcd268a84, 0x5c10ae18d1de933c, 0xf638ff5425f0afff, 0x7935628e299d1791),
    (0x140c0e42687e9ead, 0x01b2827a5664ca9c, 0x26fedde4acd99db1, 0xd316939d20b82c0e),
    (0x2f0c3a115d4317d1, 0x91ba89b8d13d1806, 0xc20a0f9b24f8c5ed, 0xc091e2ae56565984),
    (0x0c4ee778ff7c1455, 0x3006ed220cf9c810, 0x08a0cff670b22b82, 0xd8c538a1dc958c61),
    (0x1704f2766d46f82c, 0x3693f00440ccc360, 0x9424ed26c0acc662, 0x27c3d7485de74c69),
    (0x2f2d19cc3ea5d78e, 0xa7a02c1b51d244ab, 0xf0769c9f8544e402, 0x39b66fe9009c3cfa),
    (0x1ae03853b75fcaba, 0x5053f112e2a8e8dc, 0xdd7ee6cb9cfed9c7, 0xd6c766a806fc6629),
    (0x0971aabf795241df, 0x51d131d0fa61aa5f, 0x3556921b2d6f014e, 0x4e41a86ddaf056d5),
    (0x1408c316e6014e1a, 0x91d4cf6b6e0de73e, 0xda624f8380df1c87, 0x5f5c29f7bfe2f646),
    (0x1667f3fe2edbe850, 0x248abe42b543093b, 0x6c89f1f773ef2853, 0x41691f39822ef5bd),
    (0x13bf7c5d0d2c4376, 0xa48b0a03557cdf91, 0x5b81718409e5c133, 0x424c69576500fe37),
    (0x07620a6dfb0b6cec, 0x3016adf3d3533c24, 0x024b95347856b797, 0x19bc0ba743a62c2c),
    (0x1574c7ef0c43545f, 0x36a8ca08bdbdd8b0, 0x75d2959e2f322b73, 0x1675de3e1982b4d0),
    (0x269e4b5b7a2eb21a, 0xfd567970a717ceec, 0x5bd4184571c254fd, 0xc06e03a7ff8378f0),
];

/// The MDS matrix for BN254 and width 3, row after row.
pub const MDS_BN254_T_3: [Limbs; 9] = [
    (0x109b7f411ba0e4c9, 0xb2b70caf5c36a7b1, 0x94be7c11ad24378b, 0xfedb68592ba8118b),
    (0x16ed41e13bb9c0c6, 0x6ae119424fddbcbc, 0x9314dc9fdbdeea55, 0xd6c64543dc4903e0),
    (0x2b90bba00fca0589, 0xf617e7dcbfe82e0d, 0xf706ab640ceb247b, 0x791a93b74e36736d),
    (0x2969f27eed31a480, 0xb9c36c764379dbca, 0x2cc8fdd1415c3dde, 0xd62940bcde0bd771),
    (0x2e2419f9ec02ec39, 0x4c9871c832963dc1, 0xb89d743c8c7b9640, 0x29b2311687b1fe23),
    (0x101071f0032379b6, 0x97315876690f053d, 0x148d4e109f5fb065, 0xc8aacc55a0f89bfa),
    (0x143021ec686a3f33, 0x0d5f9e654638065c, 0xe6cd79e28c5b3753, 0x326244ee65a1b1a7),
    (0x176cc029695ad025, 0x82a70eff08a6fd99, 0xd057e12e58e7d7b6, 0xb16cdfabc8ee2911),
    (0x19a3fc0a56702bf4, 0x17ba7fee3802593f, 0xa644470307043f77, 0x73279cd71d25d5e0),
];

/// The round constants for BN254 and width 3, round after round.
pub const RC_BN254_T_3: [Limbs; 195] = [
    (0x0ee9a592ba9a9518, 0xd05986d656f40c21, 0x14c4993c11bb2993, 0x8d21d47304cd8e6e),
    (0x00f1445235f2148c, 0x5986587169fc1bcd, 0x887b08d4d00868df, 0x5696fff40956e864),
    (0x08dff3487e8ac99e, 0x1f29a058d0fa80b9, 0x30c728730b7ab36c, 0xe879f3890ecf73f5),
    (0x2f27be690fdaee46, 0xc3ce28f7532b13c8, 0x56c35342c84bda6e, 0x20966310fadc01d0),
    (0x2b2ae1acf68b7b8d, 0x2416bebf3d4f6234, 0xb763fe04b8043ee4, 0x8b8327bebca16cf2),
    (0x0319d062072bef7e, 0xcca5eac06f97d4d5, 0x5952c175ab6b03ea, 0xe64b44c7dbf11cfa),
    (0x28813dcaebaeaa82, 0x8a376df87af4a63b, 0xc8b7bf27ad49c629, 0x8ef7b387bf28526d),
    (0x2727673b2ccbc903, 0xf181bf38e1c1d40d, 0x2033865200c352bc, 0x150928adddf9cb78),
    (0x234ec45ca27727c2, 0xe74abd2b2a1494cd, 0x6efbd43e340587d6, 0xb8fb9e31e65cc632),
    (0x15b52534031ae18f, 0x7f862cb2cf7cf760, 0xab10a8150a337b1c, 0xcd99ff6e8797d428),
    (0x0dc8fad6d9e4b35f, 0x5ed9a3d186b79ce3, 0x8e0e8a8d1b58b132, 0xd701d4eecf68d1f6),
    (0x1bcd95ffc211fbca, 0x600f705fad3fb567, 0xea4eb378f62e1fec, 0x97805518a47e4d9c),
    (0x10520b0ab721cadf, 0xe9eff81b016fc34d, 0xc76da36c25789378, 0x17cb978d069de559),
    (0x1f6d48149b8e7f7d, 0x9b257d8ed5fbbaf4, 0x2932498075fed0ac, 0xe88a9eb81f5627f6),
    (0x1d9655f652309014, 0xd29e00ef35a2089b, 0xfff8dc1c816f0dc9, 0xca34bdb5460c8705),
    (0x04df5a56ff95bcaf, 0xb051f7b1cd43a99b, 0xa731ff67e4703205, 0x8fe3d4185697cc7d),
    (0x0672d995f8fff640, 0x151b3d290cedaf14, 0x8690a10a8c8424a7, 0xf6ec282b6e4be828),
    (0x099952b414884454, 0xb21200d7ffafdd5f, 0x0c9a9dcc06f2708e, 0x9fc1d8209b5c75b9),
    (0x052cba2255dfd00c, 0x7c483143ba8d4694, 0x48e43586a9b4cd91, 0x83fd0e843a6b9fa6),
    (0x0b8badee690adb8e, 0xb0bd74712b7999af, 0x82de55707251ad77, 0x16077cb93c464ddc),
    (0x119b1590f13307af, 0x5a1ee651020c07c7, 0x49c15d60683a8050, 0xb963d0a8e4b2bdd1),
    (0x03150b7cd6d5d17b, 0x2529d36be0f67b83, 0x2c4acfc884ef4ee5, 0xce15be0bfb4a8d09),
    (0x2cc6182c5e14546e, 0x3cf1951f17391235, 0x5374efb83d80898a, 0xbe69cb317c9ea565),
    (0x005032551e6378c4, 0x50cfe129a404b376, 0x4218cadedac14e2b, 0x92d2cd73111bf0f9),
    (0x233237e3289baa34, 0xbb147e972ebcb951, 0x6469c399fcc069fb, 0x88f9da2cc28276b5),
    (0x05c8f4f4ebd4a6e3, 0xc980d31674bfbe63, 0x23037f21b34ae5a4, 0xe80c2d4c24d60280),
    (0x0a7b1db13042d396, 0xba05d818a319f252, 0x52bcf35ef3aeed91, 0xee1f09b2590fc65b),
    (0x2a73b71f9b210cf5, 0xb14296572c9d32db, 0xf156e2b086ff47dc, 0x5df542365a404ec0),
    (0x1ac9b0417abcc9a1, 0x935107e9ffc91dc3, 0xec18f2c4dbe7f229, 0x76a760bb5c50c460),
    (0x12c0339ae0837482, 0x3fabb076707ef479, 0x269f3e4d6cb10434, 0x9015ee046dc93fc0),
    (0x0b7475b102a165ad, 0x7f5b18db4e1e704f, 0x52900aa3253baac6, 0x8246682e56e9a28e),
    (0x037c2849e191ca3e, 0xdb1c5e49f6e8b891, 0x7c843e379366f2ea, 0x32ab3aa88d7f8448),
    (0x05a6811f8556f014, 0xe92674661e217e9b, 0xd5206c5c93a07dc1, 0x45fdb176a716346f),
    (0x29a795e7d9802894, 0x6e947b75d54e9f04, 0x4076e87a7b2883b4, 0x7b675ef5f38bd66e),
    (0x20439a0c84b322eb, 0x45a3857afc18f582, 0x6e8c7382c8a1585c, 0x507be199981fd22f),
    (0x2e0ba8d94d9ecf4a, 0x94ec2050c7371ff1, 0xbb50f27799a84b6d, 0x4a2a6f2a0982c887),
    (0x143fd115ce08fb27, 0xca38eb7cce822b45, 0x17822cd2109048d2, 0xe6d0ddcca17d71c8),
    (0x0c64cbecb1c734b8, 0x57968dbbdcf813cd, 0xf8611659323dbcbf, 0xc84323623be9caf1),
    (0x028a305847c683f6, 0x46fca925c163ff5a, 0xe74f348d62c2b670, 0xf1426cef9403da53),
    (0x2e4ef510ff0b6fda, 0x5fa940ab4c4380f2, 0x6a6bcb64d89427b8, 0x24d6755b5db9e30c),
    (0x0081c95bc43384e6, 0x63d79270c956ce3b, 0x8925b4f6d033b078, 0xb96384f50579400e),
    (0x2ed5f0c91cbd9749, 0x187e2fade687e05e, 0xe2491b349c039a0b, 0xba8a9f4023a0bb38),
    (0x30509991f88da350, 0x4bbf374ed5aae2f0, 0x3448a22c76234c8c, 0x990f01f33a735206),
    (0x1c3f20fd55409a53, 0x221b7c4d49a356b9, 0xf0a1119fb2067b41, 0xa7529094424ec6ad),
    (0x10b4e7f3ab5df003, 0x049514459b6e18ee, 0xc46bb2213e8e131e, 0x170887b47ddcb96c),
    (0x2a1982979c3ff7f4, 0x3ddd543d891c2abd, 0xdd80f804c077d775, 0x039aa3502e43adef),
    (0x1c74ee64f15e1db6, 0xfeddbead56d6d55d, 0xba431ebc396c9af9, 0x5cad0f1315bd5c91),
    (0x07533ec850ba7f98, 0xeab9303cace01b4b, 0x9e4f2e8b82708cfa, 0x9c2fe45a0ae146a0),
    (0x21576b438e500449, 0xa151e4eeaf17b154, 0x285c68f42d42c180, 0x8a11abf3764c0750),
    (0x2f17c0559b8fe796, 0x08ad5ca193d62f10, 0xbce8384c815f0906, 0x743d6930836d4a9e),
    (0x2d477e3862d07708, 0xa79e8aae946170bc, 0x9775a4201318474a, 0xe665b0b1b7e2730e),
    (0x162f5243967064c3, 0x90e095577984f291, 0xafba2266c38f5abc, 0xd89be0f5b2747eab),
    (0x2b4cb233ede9ba48, 0x264ecd2c8ae50d1a, 0xd7a8596a87f29f8a, 0x7777a70092393311),
    (0x2c8fbcb2dd8573dc, 0x1dbaf8f462285477, 0x6db2eece6d85c4cf, 0x4254e7c35e03b07a),
    (0x1d6f347725e4816a, 0xf2ff453f0cd56b19, 0x9e1b61e9f601e9ad, 0xe5e88db870949da9),
    (0x204b0c397f4ebe71, 0xebc2d8b3df5b913d, 0xf9e6ac02b68d3132, 0x4cd49af5c4565529),
    (0x0c4cb9dc3c4fd817, 0x4f1149b3c63c3c2f, 0x9ecb827cd7dc2553, 0x4ff8fb75bc79c502),
    (0x174ad61a1448c899, 0xa25416474f493030, 0x1e5c49475279e063, 0x9a616ddc45bc7b54),
    (0x1a96177bcf4d8d89, 0xf759df4ec2f3cde2, 0xeaaa28c177cc0fa1, 0x3a9816d49a38d2ef),
    (0x066d04b24331d71c, 0xd0ef8054bc60c4ff, 0x05202c126a233c1a, 0x8242ace360b8a30a),
    (0x2a4c4fc6ec0b0cf5, 0x2195782871c6dd3b, 0x381cc65f72e02ad5, 0x27037a62aa1bd804),
    (0x13ab2d136ccf37d4, 0x47e9f2e14a7cedc9, 0x5e727f8446f6d9d7, 0xe55afc01219fd649),
    (0x1121552fca260616, 0x19d24d843dc82769, 0xc1b04fcec26f5519, 0x4c2e3e869acc6a9a),
    (0x00ef653322b13d6c, 0x889bc81715c37d77, 0xa6cd267d595c4a89, 0x09a5546c7c97cff1),
    (0x0e25483e45a66520, 0x8b261d8ba74051e6, 0x400c776d652595d9, 0x845aca35d8a397d3),
    (0x29f536dcb9dd7682, 0x245264659e15d88e, 0x395ac3d4dde92d8c, 0x46448db979eeba89),
    (0x2a56ef9f2c53feba, 0xdfda33575dbdbd88, 0x5a124e2780bbea17, 0x0e456baace0fa5be),
    (0x1c8361c78eb5cf5d, 0xecfb7a2d17b5c409, 0xf2ae2999a46762e8, 0xee416240a8cb9af1),
    (0x151aff5f38b20a0f, 0xc0473089aaf0206b, 0x83e8e68a764507bf, 0xd3d0ab4be74319c5),
    (0x04c6187e41ed881d, 0xc1b239c88f7f9d43, 0xa9f52fc8c8b6cdd1, 0xe76e47615b51f100),
    (0x13b37bd80f4d27fb, 0x10d84331f6fb6d53, 0x4b81c61ed1577644, 0x9e801b7ddc9c2967),
    (0x01a5c536273c2d9d, 0xf578bfbd32c17b7a, 0x2ce3664c2a52032c, 0x9321ceb1c4e8a8e4),
    (0x2ab3561834ca7383, 0x5ad05f5d7acb950b, 0x4a9a2c666b9726da, 0x832239065b7c3b02),
    (0x1d4d8ec291e720db, 0x200fe6d686c0d613, 0xacaf6af4e95d3bf6, 0x9f7ed516a597b646),
    (0x041294d2cc484d22, 0x8f5784fe7919fd2b, 0xb925351240a04b71, 0x1514c9c80b65af1d),
    (0x154ac98e01708c61, 0x1c4fa715991f0048, 0x98f57939d126e392, 0x042971dd90e81fc6),
    (0x0b339d8acca7d4f8, 0x3eedd84093aef510, 0x50b3684c88f8b0b0, 0x4524563bc6ea4da4),
    (0x0955e49e6610c942, 0x54a4f84cfbab3445, 0x98f0e71eaff4a7dd, 0x81ed95b50839c82e),
    (0x06746a6156eba544, 0x26b9e22206f15abc, 0xa9a6f41e6f535c6f, 0x3525401ea0654626),
    (0x0f18f5a0ecd1423c, 0x496f3820c549c278, 0x38e5790e2bd0a196, 0xac917c7ff32077fb),
    (0x04f6eeca1751f730, 0x8ac59eff5beb261e, 0x4bb563583ede7bc9, 0x2a738223d6f76e13),
    (0x2b56973364c4c4f5, 0xc1a3ec4da3cdce03, 0x8811eb116fb3e45b, 0xc1768d26fc0b3758),
    (0x123769dd49d5b054, 0xdcd76b89804b1bcb, 0x8e1392b385716a5d, 0x83feb65d437f29ef),
    (0x2147b424fc48c80a, 0x88ee52b91169aace, 0xa989f64464711509, 0x94257b2fb01c63e9),
    (0x0fdc1f58548b8570, 0x1a6c5505ea332a29, 0x647e6f34ad4243c2, 0xea54ad897cebe54d),
    (0x12373a8251fea004, 0xdf68abcf0f7786d4, 0xbceff28c5dbbe0c3, 0x944f685cc0a0b1f2),
    (0x21e4f4ea5f35f85b, 0xad7ea52ff742c9e8, 0xa642756b6af44203, 0xdd8a1f35c1a90035),
    (0x16243916d69d2ca3, 0xdfb4722224d4c462, 0xb57366492f45e90d, 0x8a81934f1bc3b147),
    (0x1efbe46dd7a578b4, 0xf66f9adbc88b4378, 0xabc21566e1a0453c, 0xa13a4159cac04ac2),
    (0x07ea5e8537cf5dd0, 0x8886020e23a7f387, 0xd468d5525be66f85, 0x3b672cc96a88969a),
    (0x05a8c4f9968b8aa3, 0xb7b478a30f9a5b63, 0x650f19a75e7ce11c, 0xa9fe16c0b76c00bc),
    (0x20f057712cc21654, 0xfbfe59bd345e8dac, 0x3f7818c701b9c788, 0x2d9d57b72a32e83f),
    (0x04a12ededa9dfd68, 0x9672f8c67fee3163, 0x6dcd8e88d01d4901, 0x9bd90b33eb33db69),
    (0x27e88d8c15f37dce, 0xe44f1e5425a51dec, 0xbd136ce5091a6767, 0xe49ec9544ccd101a),
    (0x2feed17b84285ed9, 0xb8a5c8c5e95a41f6, 0x6e096619a7703223, 0x176c41ee433de4d1),
    (0x1ed7cc76edf45c7c, 0x404241420f729cf3, 0x94e5942911312a0d, 0x6972b8bd53aff2b8),
    (0x15742e99b9bfa323, 0x157ff8c586f5660e, 0xac6783476144cdca, 0xdf2874be45466b1a),
    (0x1aac285387f65e82, 0xc895fc6887ddf405, 0x77107454c6ec0317, 0x284f033f27d0c785),
    (0x25851c3c845d4790, 0xf9ddadbdb6057357, 0x832e2e7a49775f71, 0xec75a96554d67c77),
    (0x15a5821565cc2ec2, 0xce78457db197edf3, 0x53b7ebba2c552337, 0x0ddccc3d9f146a67),
    (0x2411d57a4813b998, 0x0efa7e31a1db5966, 0xdcf64f3604427750, 0x2f15485f28c71727),
    (0x002e6f8d6520cd47, 0x13e335b8c0b6d2e6, 0x47e9a98e12f4cd25, 0x58828b5ef6cb4c9b),
    (0x2ff7bc8f4380cde9, 0x97da00b616b0fcd1, 0xaf8f0e91e2fe1ed7, 0x398834609e0315d2),
    (0x00b9831b94852559, 0x5ee02724471bcd18, 0x2e9521f6b7bb68f1, 0xe93be4febb0d3cbe),
    (0x0a2f53768b8ebf6a, 0x86913b0e57c04e01, 0x1ca408648a4743a8, 0x7d77adbf0c9c3512),
    (0x00248156142fd037, 0x3a479f91ff239e96, 0x0f599ff7e94be69b, 0x7f2a290305e1198d),
    (0x171d5620b87bfb13, 0x28cf8c02ab3f0c9a, 0x397196aa6a542c23, 0x50eb512a2b2bcda9),
    (0x170a4f55536f7dc9, 0x70087c7c10d6fad7, 0x60c952172dd54dd9, 0x9d1045e4ec34a808),
    (0x29aba33f799fe66c, 0x2ef3134aea04336e, 0xcc37e38c1cd211ba, 0x482eca17e2dbfae1),
    (0x1e9bc179a4fdd758, 0xfdd1bb1945088d47, 0xe70d114a03f6a0e8, 0xb5ba650369e64973),
    (0x1dd269799b660fad, 0x58f7f4892dfb0b5a, 0xfeaad869a9c4b44f, 0x9c9e1c43bdaf8f09),
    (0x22cdbc8b70117ad1, 0x401181d02e15459e, 0x7ccd426fe869c7c9, 0x5d1dd2cb0f24af38),
    (0x0ef042e454771c53, 0x3a9f57a55c503fce, 0xfd3150f52ed94a7c, 0xd5ba93b9c7dacefd),
    (0x11609e06ad6c8fe2, 0xf287f3036037e885, 0x1318e8b08a0359a0, 0x3b304ffca62e8284),
    (0x1166d9e554616dba, 0x9e753eea427c17b7, 0xfecd58c076dfe427, 0x08b08f5b783aa9af),
    (0x2de52989431a8595, 0x93413026354413db, 0x177fbf4cd2ac0b56, 0xf855a888357ee466),
    (0x3006eb4ffc7a8581, 0x9a6da492f3a8ac1d, 0xf51aee5b17b8e89d, 0x74bf01cf5f71e9ad),
    (0x2af41fbb61ba8a80, 0xfdcf6fff9e3f6f42, 0x2993fe8f0a4639f9, 0x62344c8225145086),
    (0x119e684de476155f, 0xe5a6b41a8ebc85db, 0x8718ab27889e85e7, 0x81b214bace4827c3),
    (0x1835b786e2e8925e, 0x188bea59ae363537, 0xb51248c23828f047, 0xcff784b97b3fd800),
    (0x28201a34c594dfa3, 0x4d794996c6433a20, 0xd152bac2a7905c92, 0x6c40e285ab32eeb6),
    (0x083efd7a27d17510, 0x94e80fefaf78b000, 0x864c82eb57118772, 0x4a761f88c22cc4e7),
    (0x0b6f88a357719952, 0x6158e61ceea27be8, 0x11c16df7774dd851, 0x9e079564f61fd13b),
    (0x0ec868e6d15e51d9, 0x644f66e1d6471a94, 0x589511ca00d29e10, 0x14390e6ee4254f5b),
    (0x2af33e3f86677127, 0x1ac0c9b3ed2e1142, 0xecd3e74b939cd40d, 0x00d937ab84c98591),
    (0x0b520211f904b5e7, 0xd09b5d961c6ace77, 0x34568c547dd6858b, 0x364ce5e47951f178),
    (0x0b2d722d0919a1aa, 0xd8db58f10062a92e, 0xa0c56ac4270e822c, 0xca228620188a1d40),
    (0x1f790d4d7f8cf094, 0xd980ceb37c2453e9, 0x57b54a9991ca38bb, 0xe0061d1ed6e562d4),
    (0x0171eb95dfbf7d1e, 0xaea97cd385f78015, 0x0885c16235a2a6a8, 0xda92ceb01e504233),
    (0x0c2d0e3b5fd57549, 0x329bf6885da66b9b, 0x790b40defd2c8650, 0x762305381b168873),
    (0x1162fb28689c2715, 0x4e5a8228b4e72b37, 0x7cbcafa589e283c3, 0x5d3803054407a18d),
    (0x2f1459b65dee441b, 0x64ad386a91e8310f, 0x282c5a92a89e1992, 0x1623ef8249711bc0),
    (0x1e6ff3216b688c3d, 0x996d74367d5cd4c1, 0xbc489d46754eb712, 0xc243f70d1b53cfbb),
    (0x01ca8be73832b8d0, 0x681487d27d157802, 0xd741a6f36cdc2a05, 0x76881f9326478875),
    (0x1f7735706ffe9fc5, 0x86f976d5bdf223dc, 0x680286080b10cea0, 0x0b9b5de315f9650e),
    (0x2522b60f4ea33076, 0x40a0c2dce041fba9, 0x21ac10a3d5f096ef, 0x4745ca838285f019),
    (0x23f0bee001b1029d, 0x5255075ddc957f83, 0x3418cad4f52b6c3f, 0x8ce16c235572575b),
    (0x2bc1ae8b8ddbb81f, 0xcaac2d44555ed568, 0x5d142633e9df905f, 0x66d9401093082d59),
    (0x0f9406b8296564a3, 0x7304507b8dba3ed1, 0x62371273a07b1fc9, 0x8011fcd6ad72205f),
    (0x2360a8eb0cc7defa, 0x67b72998de90714e, 0x17e75b174a52ee4a, 0xcb126c8cd995f0a8),
    (0x15871a5cddead976, 0x804c803cbaef255e, 0xb4815a5e96df8b00, 0x6dcbbc2767f88948),
    (0x193a56766998ee9e, 0x0a8652dd2f3b1da0, 0x362f4f54f7237954, 0x4f957ccdeefb420f),
    (0x2a394a43934f8698, 0x2f9be56ff4fab170, 0x3b2e63c8ad334834, 0xe4309805e777ae0f),
    (0x1859954cfeb8695f, 0x3e8b635dcb345192, 0x892cd11223443ba7, 0xb4166e8876c0d142),
    (0x04e1181763050e58, 0x013444dbcb99f190, 0x2b11bc25d90bbdca, 0x408d3819f4fed32b),
    (0x0fdb253dee83869d, 0x40c335ea64de8c5b, 0xb10eb82db08b5e8b, 0x1f5e5552bfd05f23),
    (0x058cbe8a9a5027bd, 0xaa4efb623adead62, 0x75f08686f1c08984, 0xa9d7c5bae9b4f1c0),
    (0x1382edce9971e186, 0x497eadb1aeb1f52b, 0x23b4b83bef023ab0, 0xd15228b4cceca59a),
    (0x03464990f045c6ee, 0x0819ca51fd11b0be, 0x7f61b8eb99f14b77, 0xe1e6634601d9e8b5),
    (0x23f7bfc8720dc296, 0xfff33b41f98ff83c, 0x6fcab4605db2eb5a, 0xaa5bc137aeb70a58),
    (0x0a59a158e3eec211, 0x7e6e94e7f0e9decf, 0x18c3ffd5e1531a92, 0x19636158bbaf62f2),
    (0x06ec54c80381c052, 0xb58bf23b312ffd3c, 0xe2c4eba065420af8, 0xf4c23ed0075fd07b),
    (0x118872dc832e0eb5, 0x476b56648e867ec8, 0xb09340f7a7bcb1b4, 0x962f0ff9ed1f9d01),
    (0x13d69fa127d83416, 0x5ad5c7cba7ad59ed, 0x52e0b0f0e42d7fea, 0x95e1906b520921b1),
    (0x169a177f63ea6812, 0x70b1c6877a73d21b, 0xde143942fb71dc55, 0xfd8a49f19f10c77b),
    (0x04ef51591c6ead97, 0xef42f287adce40d9, 0x3abeb032b922f66f, 0xfb7e9a5a7450544d),
    (0x256e175a1dc07939, 0x0ecd7ca703fb2e3b, 0x19ec61805d4f03ce, 0xd5f45ee6dd0f69ec),
    (0x30102d28636abd5f, 0xe5f2af412ff6004f, 0x75cc360d3205dd2d, 0xa002813d3e2ceeb2),
    (0x10998e42dfcd3bbf, 0x1c0714bc73eb1bf4, 0x0443a3fa99bef4a3, 0x1fd31be182fcc792),
    (0x193edd8e9fcf3d76, 0x25fa7d24b598a1d8, 0x9f3362eaf4d582ef, 0xecad76f879e36860),
    (0x18168afd34f2d915, 0xd0368ce80b7b3347, 0xd1c7a561ce611425, 0xf2664d7aa51f0b5d),
    (0x29383c01ebd3b6ab, 0x0c017656ebe658b6, 0xa328ec77bc33626e, 0x29e2e95b33ea6111),
    (0x10646d2f2603de39, 0xa1f4ae5e7771a64a, 0x702db6e86fb76ab6, 0x00bf573f9010c711),
    (0x0beb5e07d1b27145, 0xf575f1395a55bf13, 0x2f90c25b40da7b38, 0x64d0242dcb1117fb),
    (0x16d685252078c133, 0xdc0d3ecad62b5c88, 0x30f95bb2e54b59ab, 0xdffbf018d96fa336),
    (0x0a6abd1d833938f3, 0x3c74154e0404b4b4, 0x0a555bbbec21ddfa, 0xfd672dd62047f01a),
    (0x1a679f5d36eb7b5c, 0x8ea12a4c2dedc8fe, 0xb12dffeec4503172, 0x70a6f19b34cf1860),
    (0x0980fb233bd456c2, 0x3974d50e0ebfde47, 0x26a423eada4e8f6f, 0xfbc7592e3f1b93d6),
    (0x161b42232e61b84c, 0xbf1810af93a38fc0, 0xcece3d5628c92820, 0x03ebacb5c312c72b),
    (0x0ada10a90c7f0520, 0x950f7d47a60d5e6a, 0x493f09787f1564e5, 0xd09203db47de1a0b),
    (0x1a730d372310ba82, 0x320345a29ac4238e, 0xd3f07a8a2b4e121b, 0xb50ddb9af407f451),
    (0x2c8120f268ef054f, 0x817064c369dda7ea, 0x908377feaba5c4df, 0xfbda10ef58e8c556),
    (0x1c7c8824f758753f, 0xa57c00789c684217, 0xb930e95313bcb73e, 0x6e7b8649a4968f70),
    (0x2cd9ed31f5f8691c, 0x8e39e4077a74faa0, 0xf400ad8b491eb3f7, 0xb47b27fa3fd1cf77),
    (0x23ff4f9d46813457, 0xcf60d92f57618399, 0xa5e022ac321ca550, 0x854ae23918a22eea),
    (0x09945a5d147a4f66, 0xceece6405dddd9d0, 0xaf5a2c5103529407, 0xdff1ea58f180426d),
    (0x188d9c528025d4c2, 0xb67660c6b771b90f, 0x7c7da6eaa29d3f26, 0x8a6dd223ec6fc630),
    (0x3050e37996596b7f, 0x81f68311431d8734, 0xdba7d926d3633595, 0xe0c0d8ddf4f0f47f),
    (0x15af1169396830a9, 0x1600ca8102c35c42, 0x6ceae5461e3f95d8, 0x9d829518d30afd78),
    (0x1da6d09885432ea9, 0xa06d9f37f873d985, 0xdae933e351466b29, 0x04284da3320d8acc),
    (0x2796ea90d269af29, 0xf5f8acf33921124e, 0x4e4fad3dbe658945, 0xe546ee411ddaa9cb),
    (0x202d7dd1da0f6b4b, 0x0325c8b3307742f0, 0x1e15612ec8e9304a, 0x7cb0319e01d32d60),
    (0x096d6790d05bb759, 0x156a952ba263d672, 0xa2d7f9c788f4c831, 0xa29dace4c0f8be5f),
    (0x054efa1f65b0fce2, 0x83808965275d877b, 0x438da23ce5b13e19, 0x63798cb1447d25a4),
    (0x1b162f83d917e93e, 0xdb3308c29802deb9, 0xd8aa690113b2e148, 0x64ccf6e18e4165f1),
    (0x21e5241e12564dd6, 0xfd9f1cdd2a0de39e, 0xedfefc1466cc568e, 0xc5ceb745a0506edc),
    (0x1cfb5662e8cf5ac9, 0x226a80ee17b36abe, 0xcb73ab5f87e16192, 0x7b4349e10e4bdf08),
    (0x0f21177e302a771b, 0xbae6d8d1ecb373b6, 0x2c99af346220ac01, 0x29c53f666eb24100),
    (0x1671522374606992, 0xaffb0dd7f71b12be, 0xc4236aede6290546, 0xbcef7e1f515c2320),
    (0x0fa3ec5b9488259c, 0x2eb4cf24501bfad9, 0xbe2ec9e42c5cc8cc, 0xd419d2a692cad870),
    (0x193c0e04e0bd2983, 0x57cb266c1506080e, 0xd36edce85c648cc0, 0x85e8c57b1ab54bba),
    (0x102adf8ef74735a2, 0x7e9128306dcbc3c9, 0x9f6f7291cd406578, 0xce14ea2adaba68f8),
    (0x0fe0af7858e49859, 0xe2a54d6f1ad945b1, 0x316aa24bfbdd23ae, 0x40a6d0cb70c3eab1),
    (0x216f6717bbc7dedb, 0x08536a2220843f4e, 0x2da5f1daa9ebdefd, 0xe8a5ea7344798d22),
    (0x1da55cc900f0d21f, 0x4a3e694391918a1b, 0x3c23b2ac773c6b3e, 0xf88e2e4228325161),
];

/// The MDS matrix for BN254 and width 4, row after row.
pub const MDS_BN254_T_4: [Limbs; 16] = [
    (0x236d13393ef85cc4, 0x8a351dd786dd7a1d, 0xe5e39942296127fd, 0x87947223ae5108ad),
    (0x277686494f7644bb, 0xc4a9b194e10724eb, 0x967f1dc58718e59e, 0x3cedc821b2a7ae19),
    (0x023db68784e3f0cc, 0x0b85618826a9b350, 0x5129c16479973b0a, 0x84a4529e66b09c62),
    (0x1d359d245f286c12, 0xd50d663bae733f97, 0x8af08cdbd63017c5, 0x7b3a75646ff382c1),
    (0x2a75a171563b807d, 0xb525be259699ab28, 0xfe9bc7fb1f70943f, 0xf049bc970e841a0c),
    (0x083abff5e10051f0, 0x78e2827d092e1ae8, 0x08b4dd3e15ccc370, 0x6f38ce4157b6770e),
    (0x1a5ad71bbbecd8a9, 0x7dc49cfdbae303ad, 0x24d5c4741eab8b75, 0x68a9ff8253a1eb6f),
    (0x0d745fd00dd167fb, 0x86772133640f02ce, 0x945004a7bc2c59e8, 0x790f725c5d84f0af),
    (0x2070679e798782ef, 0x592a52ca9cef820d, 0x497ad2eecbaa7e42, 0xf366b3e521c4ed42),
    (0x2e18c8570d20bf5d, 0xf800739a53da75d9, 0x06ece318cd224ab6, 0xb3a2be979e2d7eab),
    (0x0fa86f0f27e4d3dd, 0x7f3367ce86f684f1, 0xf2e4386d3e5b9f38, 0xfa283c6aa723b608),
    (0x03f3e6fab791f166, 0x28168e4b14dbaeb6, 0x57035ee3da6b2ca8, 0x3f0c2491e0b403eb),
    (0x2f545e578202c973, 0x2488540e41f783b6, 0x8ff0613fd79375f8, 0xba8b3d30958e7677),
    (0x23810bf82877fc19, 0xbff7eefeae3faf4b, 0xb8104c32ba4cd701, 0x596a15623d01476e),
    (0x014fcd5eb0be6d5b, 0xeeafc4944034cf32, 0x1c068ef930f10be2, 0x207ed58d2a34cdd6),
    (0x00c15fc3a1d5733d, 0xd835eae0823e377f, 0x8ba4a8b627627cc2, 0xbb661c25d20fb52a),
];

/// The round constants for BN254 and width 4, round after round.
pub const RC_BN254_T_4: [Limbs; 256] = [
    (0x19b849f69450b068, 0x48da1d39bd5e4a43, 0x02bb86744edc2623, 0x8b0878e269ed23e5),
    (0x265ddfe127dd51bd, 0x7239347b758f0a13, 0x20eb2cc7450acc1d, 0xad47f80c8dcf34d6),
    (0x199750ec472f1809, 0xe0f66a545e1e5162, 0x4108ac845015c2aa, 0x3dfc36bab497d8aa),
    (0x157ff3fe65ac7208, 0x110f06a5f74302b1, 0x4d743ea25067f0ff, 0xd032f787c7f1cdf8),
    (0x2e49c43c4569dd9c, 0x5fd35ac45fca33f1, 0x0b15c590692f8bee, 0xfe18f4896ac94902),
    (0x0e35fb8998189052, 0x0d4aef2b6d6506c3, 0xcb2f0b6973c24fa8, 0x2731345ffa2d1f1e),
    (0x251ad47cb15c4f11, 0x05f109ae5e944f1b, 0xa9d9e7806d667ffe, 0xc6fe723002e0b996),
    (0x13da07dc64d42836, 0x9873e97160234641, 0xf8beb56fdd05e5f3, 0x563fa39d9c22df4e),
    (0x0c009b84e650e6d2, 0x3dc00c7dccef7483, 0xa553939689d350cd, 0x46e7b89055fd4738),
    (0x011f16b1c63a854f, 0x01992e3956f42d8b, 0x04eb650c6d535eb0, 0x203dec74befdca06),
    (0x0ed69e5e383a688f, 0x209d9a561daa7961, 0x2f3f78d0467ad454, 0x85df07093f367549),
    (0x04dba94a7b0ce9e2, 0x21acad41472b6bbe, 0x3aec507f5eb3d33f, 0x463672264c9f789b),
    (0x0a3f2637d840f3a1, 0x6eb094271c9d237b, 0x6036757d4bb50bf7, 0xce732ff1d4fa28e8),
    (0x259a666f129eea19, 0x8f8a1c502fdb38fa, 0x39b1f075569564b6, 0xe54a485d1182323f),
    (0x28bf7459c9b2f4c6, 0xd8e7d06a4ee3a47f, 0x7745d4271038e515, 0x7a32fdf7ede0d6a1),
    (0x0a1ca941f0570375, 0x26ea200f489be8d4, 0xc37c85bbcce6a2ae, 0xec91bd6941432447),
    (0x0c6f8f958be0e930, 0x53d7fd4fc5451285, 0x5535ed1539f051dc, 0xb43a26fd926361cf),
    (0x123106a93cd17578, 0xd426e8128ac9d90a, 0xa9e8a00708e296e0, 0x84dd57e69caaf811),
    (0x26e1ba52ad9285d9, 0x7dd3ab52f8e84008, 0x5e8fa83ff1e8f187, 0x7b074867cd2dee75),
    (0x1cb55cad7bd133de, 0x18a64c5c47b9c97c, 0xbe4d8b7bf9e09586, 0x4471537e6a4ae2c5),
    (0x1dcd73e46acd8f8e, 0x0e2c7ce04bde7f6d, 0x2a53043d5060a41c, 0x7143f08e6e9055d0),
    (0x011003e32f6d9c66, 0xf5852f05474a4def, 0x0cda294a0eb4e9b9, 0xb12b9bb4512e5574),
    (0x2b1e809ac1d10ab2, 0x9ad5f20d03a57dfe, 0xbadfe5903f58bafe, 0xd7c508dd2287ae8c),
    (0x2539de1785b73599, 0x9fb4dac35ee17ed0, 0xef995d05ab2fc5fa, 0xeaa69ae87bcec0a5),
    (0x0c246c5a2ef8ee01, 0x26497f222b3e0a0e, 0xf4e1c3d41c86d46e, 0x43982cb11d77951d),
    (0x192089c4974f68e9, 0x5408148f7c0632ed, 0xbb09e6a6ad1a1c2f, 0x3f0305f5d03b527b),
    (0x1eae0ad8ab68b2f0, 0x6a0ee36eeb0d0c05, 0x8529097d91096b75, 0x6d8fdc2fb5a60d85),
    (0x179190e5d0e22179, 0xe46f8282872abc88, 0xdb6e2fdc0dee99e6, 0x9768bd98c5d06bfb),
    (0x29bb9e2c90767325, 0x76e9a81c7ac4b832, 0x14528f7db00f31bf, 0x6cafe794a9b3cd1c),
    (0x225d394e42207599, 0x403efd0c2464a90d, 0x52652645882aac35, 0xb10e590e6e691e08),
    (0x064760623c25c8cf, 0x753d238055b44453, 0x2be13557451c087d, 0xe09efd454b23fd59),
    (0x10ba3a0e01df92e8, 0x7f301c4b716d8a39, 0x4d67f4bf42a75c10, 0x922910a78f6b5b87),
    (0x0e070bf53f8451b2, 0x4f9c6e96b0c2a801, 0xcb511bc0c242eb9d, 0x361b77693f21471c),
    (0x1b94cd61b051b04d, 0xd39755ff93821a73, 0xccd6cb11d2491d8a, 0xa7f921014de252fb),
    (0x1d7cb39bafb8c744, 0xe148787a2e70230f, 0x9d4e917d5713bb05, 0x0487b5aa7d74070b),
    (0x2ec93189bd1ab4f6, 0x9117d0fe980c80ff, 0x8785c2961829f701, 0xbb74ac1f303b17db),
    (0x2db366bfdd36d277, 0xa692bb825b86275b, 0xeac404a19ae07a90, 0x82ea46bd83517926),
    (0x062100eb485db062, 0x69655cf186a68532, 0x985275428450359a, 0xdc99cec6960711b8),
    (0x0761d33c66614aaa, 0x570e7f1e8244ca11, 0x20243f92fa59e4f9, 0x00c567bf41f5a59b),
    (0x20fc411a114d1399, 0x2c2705aa034e3f31, 0x5d78608a0f7de4cc, 0xf7a72e494855ad0d),
    (0x25b5c004a4bdfcb5, 0xadd9ec4e9ab219ba, 0x102c67e8b3effb5f, 0xc3a30f317250bc5a),
    (0x23b1822d278ed632, 0xa494e58f6df6f5ed, 0x038b186d8474155a, 0xd87e7dff62b37f4b),
    (0x22734b4c5c3f9493, 0x606c4ba9012499bf, 0x0f14d13bfcfcccaa, 0x16102a29cc2f69e0),
    (0x26c0c8fe09eb30b7, 0xe27a74dc33492347, 0xe5bdff409aa36102, 0x54413d3fad795ce5),
    (0x070dd0ccb6bd7bba, 0xe88eac03fa1fbb26, 0x196be3083a809829, 0xbbd626df348ccad9),
    (0x12b6595bdb329b6f, 0xb043ba78bb28c3be, 0xc2c0a6de46d8c5ad, 0x6067c4ebfd4250da),
    (0x248d97d7f76283d6, 0x3bec30e7a5876c11, 0xc06fca9b275c671c, 0x5e33d95bb7e8d729),
    (0x1a306d439d463b08, 0x16fc6fd64cc93931, 0x8b45eb759ddde4aa, 0x106d15d9bd9baaaa),
    (0x28a8f8372e3c38da, 0xced7c00421cb4621, 0xf4f1b54ddc27821b, 0x0d62d3d6ec7c56cf),
    (0x0094975717f9a8a8, 0xbb35152f24d43294, 0x071ce320c829f388, 0xbc852183e1e2ce7e),
    (0x04d5ee4c3aa78f7d, 0x80fde60d716480d3, 0x593f74d4f653ae83, 0xf4103246db2e8d65),
    (0x2a6cf5e9aa03d433, 0x6349ad6fb8ed2269, 0xc7bef54b8822cc76, 0xd08495c12efde187),
    (0x2304d31eaab960ba, 0x9274da43e19ddeb7, 0xf792180808fd6e43, 0xbaae48d7efcba3f3),
    (0x03fd9ac865a4b2a6, 0xd5e7009785817249, 0xbff08a7e0726fcb4, 0xe1c11d39d199f0b0),
    (0x00b7258ded52bbda, 0x2248404d55ee5044, 0x798afc3a20919307, 0x3f7954d4d63b0b64),
    (0x159f81ada0771799, 0xec38fca2d4bf65eb, 0xb13d3a74f3298db3, 0x6272c5ca65e92d9a),
    (0x1ef90e67437fbc85, 0x50237a75bc28e3bb, 0x9000130ea25f0c54, 0x71e144cf4264431f),
    (0x1e65f838515e5ff0, 0x196b49aa41a2d256, 0x8df739bc176b08ec, 0x95a79ed82932e30d),
    (0x2b1b045def3a166c, 0xec6ce768d079ba74, 0xb18c844e570e1f82, 0x6575c1068c94c33f),
    (0x0832e5753ceb0ff6, 0x402543b1109229c1, 0x65dc2d73bef715e3, 0xf1c6e07c168bb173),
    (0x02f614e9cedfb3dc, 0x6b762ae0a37d41ba, 0xb1b841c2e8b6451b, 0xc5a8e3c390b6ad16),
    (0x0e2427d38bd46a60, 0xdd640b8e362cad96, 0x7370ebb777bedff4, 0x0f6a0be27e7ed705),
    (0x0493630b7c670b6d, 0xeb7c84d414e7ce79, 0x049f0ec098c3c7c5, 0x0768bbe29214a53a),
    (0x22ead100e8e48267, 0x4decdab17066c5a2, 0x6bb1515355d5461a, 0x3dc06cc85327cea9),
    (0x25b3e56e655b42cd, 0xaae2626ed2554d48, 0x583f1ae35626d04d, 0xe5084e0b6d2a6f16),
    (0x1e32752ada8836ef, 0x5837a6cde8ff13db, 0xb599c336349e4c58, 0x4b4fdc0a0cf6f9d0),
    (0x2fa2a871c15a387c, 0xc50f68f6f3c3455b, 0x23c00995f05078f6, 0x72a9864074d412e5),
    (0x2f569b8a9a4424c9, 0x278e1db7311e889f, 0x54ccbf10661bab7f, 0xcd18e7c7a7d83505),
    (0x044cb455110a8fdd, 0x531ade530234c518, 0xa7df93f7332ffd21, 0x44165374b246b43d),
    (0x227808de93906d5d, 0x420246157f2e42b1, 0x91fe8c90adfe1181, 0x78ddc723a5319025),
    (0x02fcca2934e046bc, 0x623adead87357986, 0x5d03781ae090ad4a, 0x8579d2e7a6800355),
    (0x0ef915f0ac120b87, 0x6abccceb344a1d36, 0xbad3f3c5ab91a8dd, 0xcbec2e060d8befac),
    (0x1797130f4b7a3e17, 0x77eb757bc6f287f6, 0xab0fb85f6be63b09, 0xf3b16ef2b1405d38),
    (0x0a76225dc04170ae, 0x3306c85abab59e60, 0x8c7f497c20156d4d, 0x36c668555decc6e5),
    (0x1fffb9ec1992d66b, 0xa1e77a7b93209af6, 0xf8fa76d48acb6647, 0x96174b5326a31a5c),
    (0x25721c4fc15a3f28, 0x53b57c338fa538d8, 0x5f8fbba6c6b9c609, 0x0611889b797b9c5f),
    (0x0c817fd42d5f7a41, 0x215e3d07ba197216, 0xadb4c3790705da95, 0xeb63b982bfcaf75a),
    (0x13abe3f5239915d3, 0x9f7e13c2c24970b6, 0xdf8cf86ce00a2200, 0x2bc15866e52b5a96),
    (0x2106feea546224ea, 0x12ef7f39987a46c8, 0x5c1bc3dc29bdbd7a, 0x92cd60acb4d391ce),
    (0x21ca859468a746b6, 0xaaa79474a37dab49, 0xf1ca5a28c748bc71, 0x57e1b3345bb0f959),
    (0x05ccd6255c1e6f0c, 0x5cf1f0df934194c6, 0x2911d14d0321662a, 0x8f1a48999e34185b),
    (0x0f0e34a64b70a626, 0xe464d846674c4c88, 0x16c4fb267fe44fe6, 0xea28678cb09490a4),
    (0x0558531a4e25470c, 0x6157794ca36d0e96, 0x47dbfcfe350d6483, 0x8f5b1a8a2de0d4bf),
    (0x09d3dca9173ed2fa, 0xceea125157683d18, 0x924cadad3f655a60, 0xb72f5864961f1455),
    (0x0328cbd54e8c0913, 0x493f866ed03d218b, 0xf23f92d68aaec486, 0x17d4c722e5bd4335),
    (0x2bf07216e2aff0a2, 0x23a487b1a7094e07, 0xe79e7bcc9798c648, 0xee3347dd5329d34b),
    (0x1daf345a58006b73, 0x6499c583cb76c316, 0xd6f78ed6a6dffc82, 0x111e11a63fe412df),
    (0x176563472456aaa7, 0x46b694c60e182361, 0x1ef39039b2edc7ff, 0x391e6f2293d2c404),
    (0x2ef1e0fad9f08e87, 0xa3bb5e47d7e33538, 0xca964d2b7d1083d4, 0xfb0225035bd3f8db),
    (0x226c9b1af95babcf, 0x17b2b1f57c731017, 0x9c1803dec5ae8f0a, 0x1779ed36c817ae2a),
    (0x14bce3549cc3db74, 0x28126b4c3a15ae0f, 0xf8148c89f13fb35d, 0x35734eb5d4ad0def),
    (0x2debff156e276bb5, 0x742c3373f2635b48, 0xb8e923d301f372f8, 0xe550cfd4034212c7),
    (0x2d4083cf5a87f5b6, 0xfc2395b22e356b64, 0x41afe1b6b29c47ad, 0xd7d0432d1d4760c7),
    (0x0c225b7bcd04bf9c, 0x34b911262fdc9c1b, 0x91bf79a10c0184d8, 0x9c317c53d7161c29),
    (0x03152169d4f3d06e, 0xc33a79bfac91a02c, 0x99aa0200db66d5aa, 0x7b835265f9c9c8f3),
    (0x0b61811a9210be78, 0xb05974587486d58b, 0xddc8f51bfdfebbb8, 0x7afe8b7aa7d3199c),
    (0x203e000cad298daa, 0xf7eba6a5c5921878, 0xb8ae48acf7048f16, 0x046d637a533b6f78),
    (0x1a44bf0937c722d1, 0x376672b69f6c9655, 0xba7ee386fda1112c, 0x0757143d1bfa9146),
    (0x0376b4fae08cb03d, 0x3500afec1a1f56ac, 0xb8e0fde75a2106d7, 0x002f59c5611d4daa),
    (0x00780af2ca1cad64, 0x65a2171250fdfc32, 0xd6fc241d3214177f, 0x3d553ef363182185),
    (0x10774d9ab80c25bd, 0xeb808bedfd72a8d9, 0xb75dbe18d5221c87, 0xe9d857079bdc31d5),
    (0x10dc6e9c006ea38b, 0x04b1e03b4bd9490c, 0x0d03f98929ca1d7f, 0xb56821fd19d3b6e8),
    (0x00544b8338791518, 0xb2c7645a50392798, 0xb21f75bb60e35961, 0x70067d00141cac16),
    (0x222c01175718386f, 0x2e2e82eb122789e3, 0x52e105a3b8fa8526, 0x13bc534433ee428c),
    (0x2840d045e9bc22b2, 0x59cfb8811b1e0f45, 0xb77f7bdb7f7e2b46, 0x151a1430f608e3c5),
    (0x062752f86eebe11a, 0x009c937e468c335b, 0x04554574c2990196, 0x508e01fa5860186b),
    (0x06041bdac48205ac, 0x87adb87c20a478a7, 0x1c9950c12a80bc0a, 0x55a8e83eaaf04746),
    (0x04a533f236c422d1, 0xff900a368949b002, 0x2c7a2ae092f308d8, 0x2b1dcbbf51f5000d),
    (0x13e31d7a67232fd8, 0x11d6a955b3d4f25d, 0xfe066d1e7dc33df0, 0x4bde50a2b2d05b2a),
    (0x011c2683ae91eb4d, 0xfbc13d6357e8599a, 0x9279d1648ff2c95d, 0x2f79905bb13920f1),
    (0x0b0d219346b85745, 0x25b1a270e0b4cba5, 0xd56c928e3e2c2bd0, 0xa1ecaed015aaf6ae),
    (0x14abdec8db9c6dc9, 0x70291ee638690209, 0xb65080781ef9fd13, 0xd84c7a726b5f1364),
    (0x1a0b70b4b26fdc28, 0xfcd32aa3d2664788, 0x01eb12202ef47ced, 0x988d0376610be106),
    (0x278543721f96d130, 0x7b6943f9804e7fe5, 0x6401deb2ef99c4d1, 0x2704882e7278b607),
    (0x16eb59494a9776cf, 0x57866214dbd1473f, 0x3f0738a325638d8b, 0xa36535e011d58259),
    (0x2567a658a81ffb44, 0x4f240088fa5524c6, 0x9a9e53eeab6b7f8c, 0x41c3479dcf8c644a),
    (0x29aa1d7c151e9ad0, 0xa7ab39f1abd9cf77, 0xab78e0215a5715a6, 0xb882ade840bb13d8),
    (0x15c091233e60efe0, 0xd4bbfce2b3641500, 0x6a4f017f9a85388c, 0xe206b91f99f2c984),
    (0x16bd7d22ff858e5e, 0x0882c2c999558d77, 0xe7673ad5f1915f9f, 0xeb679a8115f014cf),
    (0x02db50480a07be0e, 0xb2c2e13ed6ef4074, 0xc0182d9b668b8e08, 0xffe6769250042025),
    (0x05e4a220e6a3bc9f, 0x7b6806ec9d6cdba1, 0x86330ef2bf7adb4c, 0x13ba866343b73119),
    (0x1dda05ebc30170bc, 0x98cbf2a5ee3b50e8, 0xb5f70bc424d39fa4, 0x104d37f1cbcf7a42),
    (0x0184bef721888187, 0xf645b6fee3667f3c, 0x91da214414d89ba5, 0xcd301f22b0de8990),
    (0x1498a307e6890006, 0x5f5e8276f62aef1c, 0x37414b84494e1577, 0xad1a6d64341b78ec),
    (0x25f40f82b31dacc4, 0xf4939800b9d2c3ea, 0xcef737b8fab1f864, 0xfe33548ad46bd49d),
    (0x09d317cc67025194, 0x3f6f5862a30d2ea9, 0xe83056ce4907bfbb, 0xcb1ff31ce5bb9650),
    (0x2f77d77786d979b2, 0x3ba4ce4a4c1b3bd0, 0xa41132cd467a86ab, 0x29b913b6cf3149d0),
    (0x0f53dafd535a9f44, 0x73dc266b6fccc684, 0x1bbd336963f254c1, 0x52f89e785f729bbf),
    (0x25c1fd72e2230452, 0x65c3a099e17526fa, 0x0e6976e1c00baf16, 0xde96de85deef2fa2),
    (0x2a902c8980c17faa, 0xe368d385d52d16be, 0x41af95c84eaea3cf, 0x893e65d6ce4a8f62),
    (0x1ce1580a3452ecf3, 0x02878c8976b82be9, 0x6676dd114d1dc8d2, 0x5527405762f83529),
    (0x24a6073f91addc33, 0xa49a1fa306df0088, 0x01c5ec569609034d, 0x2fc50f7f0f4d0056),
    (0x25e52dbd6124530d, 0x9fc27fe306d71d45, 0x83e07ca554b5d157, 0x7f256c68b0be2b74),
    (0x23dffae3c423fa7a, 0x93468dbccfb02985, 0x5974be4d0a7b2994, 0x6796e5b6cd70f15d),
    (0x06342da370cc0d8c, 0x49b77594f6b027c4, 0x80615d50be36243a, 0x99591bc9924ed6f5),
    (0x2754114281286546, 0xb75f09f115fc751b, 0x4778303d0405c1b4, 0xcc7df0d8e9f63925),
    (0x15c19e8534c5c1a8, 0x862c2bc1d119edde, 0xabf214153833d7bd, 0xb59ee197f8187cf5),
    (0x265fe062766d08fa, 0xb4c78d0d9ef3cabe, 0x366f3be0a8210616, 0x79b4b3d2d77d5f3e),
    (0x13ccf689d67a3ec9, 0xf22cb7cd0ac3a327, 0xd377ac5cd0146f04, 0x8debfd098d3ec7be),
    (0x17662f7456789739, 0xf81cd3974827a887, 0xd92a5e05bdf3fe6b, 0x9fbccca4524aaebd),
    (0x21b29c76329b31c8, 0xef18631e515f7f2f, 0x82ca6a5cca70cee4, 0xe809fd624be7ad5d),
    (0x18137478382aadba, 0x441eb97fe2790198, 0x9c06738165215319, 0x939eb17b01fa975c),
    (0x2bc07ea2bfad68e8, 0xdc724f5fef2b37c2, 0xd34f761935ffd3b7, 0x39ceec4668f37e88),
    (0x2ddb2e376f54d64a, 0x563840480df993fe, 0xb4173203c2bd94ad, 0x0e602077aef9a03e),
    (0x277eb50f2baa7061, 0x06b41cb24c602609, 0xe8a20f8d72f61370, 0x8adb25373596c3f7),
    (0x0d4de47e1aba3426, 0x9d0c620904f01a56, 0xb33fc4b450c0db50, 0xbb7f87734c9a1fe5),
    (0x0b8442bfe9e4a1b4, 0x428673b6bd3eea6f, 0x9f445697058f134a, 0xae908d0279a29f0c),
    (0x11fe5b18fbbea1a8, 0x6e06930cb89f7d4a, 0x26e186a65945e965, 0x74247fddb720f8f5),
    (0x224026f6dfaf71e2, 0x4d25d8f6d9f90021, 0xdf5b774dcad4d883, 0x170e4ad89c33a0d6),
    (0x0b2ca6a999fe6887, 0xe0704dad58d03465, 0xa96bc9e37d1091f6, 0x1bc9f9c62bbeb824),
    (0x221b63d66f0b45f9, 0xd40c54053a28a06b, 0x1d0a4ce41d364797, 0xa1a7e0c96529f421),
    (0x30185c48b7b2f1d5, 0x3d4120801b047d08, 0x7493bce64d4d24ae, 0xdce2f4836bb84ad4),
    (0x23f5d372a3f0e3cb, 0xa989e223056227d3, 0x533356f0faa48f27, 0xf8267318632a61f0),
    (0x2716683b32c755fd, 0x1bf8235ea162b1f3, 0x88e1e0090d06162e, 0x8e6dfbe4328f3e3b),
    (0x0977545836866fa2, 0x04ca1d853ec0909e, 0x3d140770c80ac67d, 0xc930c69748d5d4bc),
    (0x1444e8f592bdbfd8, 0x025d91ab4982dd42, 0x5f51682d31472b05, 0xe81c43c0f9434b31),
    (0x26e04b65e9ca8270, 0xbeb74a1c5cb8fee8, 0xbe3ffbfe583f7012, 0xa00f874e7718fbe3),
    (0x22a5c2fa860d11fe, 0x34ee47a5cd9f8698, 0x00f48f4febe29ad6, 0xdf69816fb1a914d2),
    (0x174b54d9907d8f5c, 0x6afd672a738f4273, 0x7ec338f3a0964c62, 0x9f7474dd44c5c8d7),
    (0x1db1db8aa45283f3, 0x1168fa66694cf280, 0x8d2189b87c8c8143, 0xd56c871907b39b87),
    (0x1530bf0f46527e88, 0x9030b8c7b7dfde12, 0x6f65faf8cce0ab66, 0x387341d813d1bfd1),
    (0x0b73f613993229f5, 0x9f01c1cec8760e99, 0x36ead9edc8f28148, 0x89330a2f2bade457),
    (0x29c25a22fe216460, 0x4552aaea377f448d, 0x587ab977fc822778, 0x7bd2dc0f36bcf41e),
    (0x2b30d53ed1759bfb, 0x8503da66c92cf407, 0x7abe82795dc272b3, 0x77df57d77c875526),
    (0x12f6d703b5702aab, 0x7b7b7e69359d53a2, 0x756c08c85ede7227, 0xcf5f0a2916787cd2),
    (0x2520e18300afda3f, 0x61a40a0b8837293a, 0x55ad01071028d484, 0x1ffa9ac706364113),
    (0x1ec9daea860971ec, 0xdda8ed4f346fa967, 0xac9bc59278277393, 0xc68f09fa03b8b95f),
    (0x0a99b3e178db2e2e, 0x432f5cd5bef8fe44, 0x83bf5cbf70ed407c, 0x08aae24b830ad725),
    (0x07cda9e63db6e39f, 0x086b89b601c2bbe4, 0x07ee0abac3c817a1, 0x317abad7c5778492),
    (0x08c9c65a4f955e89, 0x52d571b191bb0adb, 0x49bd8290963203b3, 0x5d48aab38f8fc3a3),
    (0x2737f8ce1d5a67b3, 0x49590ddbfbd709ed, 0x9af54a2a3f2719d3, 0x3801c9c17bdd9c9e),
    (0x1049a6c65ff019f0, 0xd28770072798e8b7, 0x909432bd0c129813, 0xa9f179ba627f7d6a),
    (0x18b4fe968732c462, 0xc0ea5a9beb27cecb, 0xde8868944fdf64ee, 0x60a5122361daeddb),
    (0x2ff2b6fd22df49d2, 0x440b2eaeeefa8c02, 0xa6f478cfcf11f1b2, 0xa4f7473483885d19),
    (0x2ec5f2f1928fe932, 0xe56c789b8f6bbcb3, 0xe8be4057cbd8dbd1, 0x8a1b352f5cef42ff),
    (0x265a5eccd8b92975, 0xe33ad9f75bf3426d, 0x424a4c6a7794ee3f, 0x08c1d100378e545e),
    (0x2405eaa4c0bde112, 0x9d6242bb5ada0e68, 0x778e656cfcb366bf, 0x20517da1dfd4279c),
    (0x094c97d8c194c42e, 0x88018004cbbf2bc5, 0xfdb51955d8b2d66b, 0x76dd98a2dbf60417),
    (0x2c30d5f33bb32c5c, 0x22b9979a605bf64d, 0x508b705221e6a686, 0x330c9625c2afe0b8),
    (0x01a75666f6241f68, 0x25d01cc6dcb1622d, 0x4886ea583e87299e, 0x6aa2fc716fdb6cf5),
    (0x0a3290e8398113ea, 0x4d12ac091e87be7c, 0x6d359ab9a66979fc, 0xf47bf2e87d382fcb),
    (0x154ade9ca36e268d, 0xfeb38461425bb0d8, 0xc31219d8fa0dfc75, 0xecd21bf69aa0cc74),
    (0x27aa8d3e25380c0b, 0x1b172d79c6f22eee, 0x99231ef5dc69d8dc, 0x13a4b5095d028772),
    (0x2cf4051e6cab4830, 0x1a8b2e3bca6099d7, 0x56bbdf485afa1f54, 0x9d395bbcbd806461),
    (0x301e70f729f3c94b, 0x1d3f517ddff9f201, 0x5131feab8afa5eeb, 0xb0843d7f84b23e71),
    (0x298beb64f812d25d, 0x8b4d9620347ab023, 0x32dc4cef113ae60d, 0x17a8d7a4c91f83bc),
    (0x1b362e72a5f847f8, 0x4d03fd291c3c471e, 0xd1c14a15b221680a, 0xcf11a3f02e46aa95),
    (0x0dc8a2146110c0b3, 0x75432902999223d5, 0xaa1ef6e78e1e5ebc, 0xbc1d9ba41dc1c737),
    (0x0a48663b34ce5e1c, 0x05dc93092cb69778, 0xcb21729a72ddc03a, 0x08afa1eb922ff279),
    (0x0a87391fb1cd8cdf, 0x6096b64a82f9e95f, 0x0fe46f143b702d74, 0x545bb314881098ee),
    (0x1b5b2946f7c28975, 0xf0512ff8e6ca362f, 0x8826edd7ea9c29f3, 0x82ba8a2a0892fd5d),
    (0x01001cf512ac241d, 0x47ebe2239219bc6a, 0x173a8bbcb8a5b987, 0xb4eac1f533315b6b),
    (0x2fd977c70f645db4, 0xf704fa7d7693da72, 0x7ac093d3fb5f5feb, 0xc72beb17d8358a32),
    (0x23c0039a3fab4ad3, 0xc2d7cc688164f39e, 0x761d5355c05444d9, 0x9be763a97793a9c4),
    (0x19d43ee0c6081c05, 0x2c9c0df6161eaac1, 0xaec356cf435888e7, 0x9f27f22ff03fa25d),
    (0x2d9b10c2f2e7ac1a, 0xfddccffd94a56302, 0x8bf29b646d020830, 0x919f9d5ca1cefe59),
    (0x2457ca6c2f2aa30e, 0xc47e4aff5a66f5ce, 0x2799283e166fc81c, 0xdae2f2b9f83e4267),
    (0x0abc392fe85eda85, 0x5820592445094022, 0x811ee8676ed6f0c3, 0x044dfb54a7c10b35),
    (0x19d2cc5ca549d1d4, 0x0cebcd37f3ea54f3, 0x1161ac3993acf310, 0x1d2c2bc30eac1eb0),
    (0x0f97ae3033ffa016, 0x08aafb26ae13cd39, 0x3ee0e4ec041ba644, 0xa3d3ab546e98c9c8),
    (0x16dbc78fd28b7fb8, 0x260e404cf1d427a7, 0xfa15537ea4e168e8, 0x8a166496e88cfeca),
    (0x240faf28f11499b9, 0x16f085f73bc4f22e, 0xef8344e576f8ad3d, 0x1827820366d5e07b),
    (0x0a1bb075aa37ff0c, 0xfe6c8531e55e1770, 0xeaba808c8fdb6dbf, 0x46f8cab58d9ef1af),
    (0x2e47e15ea4a47ff1, 0xa6a853aaf3a644ca, 0x38d5b085ac1042fd, 0xc4a705a7ce089f4d),
    (0x166e5bf073378348, 0x860ca4a9c09d39e1, 0x673ab059935f4df3, 0x5fb14528375772b6),
    (0x18b42d7ffdd2ea4f, 0xaf235902f057a274, 0x0cacccd027233001, 0xed10f96538f0916f),
    (0x089cb1b032238f5e, 0x4914788e3e3c7ead, 0x4fc368020b3ed382, 0x21deab1051c37702),
    (0x242acd3eb3a2f72b, 0xaf7c7076dd165adf, 0x89f9339c7b971921, 0xd9e70863451dd8d1),
    (0x174fbb104a4ee302, 0xbf47f2bd82fce896, 0xeac9a068283f3264, 0x74af860457245c3b),
    (0x17340e71d96f466d, 0x61f3058ce092c67d, 0x2891fb2bb318613f, 0x780c275fe1116c6b),
    (0x1e8e40ac853b7d42, 0xf00f2e383982d024, 0xf098b9f8fd455953, 0xa2fd380c4df7f6b2),
    (0x0529898dc0649907, 0xe1d4d5e284b8d107, 0x5198c55cad66e8a9, 0xbf40f92938e2e961),
    (0x2162754db0baa030, 0xbf7de5bb797364dc, 0xe8c77aa017ee1d7b, 0xf65f21c4d4e5df8f),
    (0x12c7553698c4bf6f, 0x3ceb250ae00c58c2, 0xa9f9291efbde4c84, 0x21bef44741752ec6),
    (0x292643e3ba2026af, 0xfcb8c5279313bd51, 0xa733c93353e9d9c7, 0x9cb723136526508e),
    (0x00ccf13e0cb6f9d8, 0x1d52951bea990bd5, 0xb6c07c5d98e66ff7, 0x1db6e74d5b87d158),
    (0x185d1e20e23b0917, 0xdd654128cf2f3aaa, 0xb6723873cb30fc22, 0xb0f86c15ab645b4b),
    (0x14c61c836d55d3df, 0x742bdf11c60efa18, 0x6778e3de0f024c0f, 0x13fe53f8d8764e1f),
    (0x0f356841b3f556fc, 0xe5dbe4680457691c, 0x2919e2af53008184, 0xd03ee1195d72449e),
    (0x1b8fd9ff39714e07, 0x5df124f887bf40b3, 0x83143374fd2080ba, 0x0c0a6b6e8fa5b3e8),
    (0x0e86a8c2009c140c, 0xa3f873924e2aaa14, 0xfc3c8ae04e9df0b3, 0xe9103418796f6024),
    (0x2e6c5e898f554777, 0x0e5462ad932fcdd2, 0x373fc43820ca2b16, 0xb0861421e79155c8),
    (0x05d797f1ab364723, 0x7c14f9d1df032bc9, 0xff9fe1a0ecd37797, 0x2ce5fd5a0c014604),
    (0x29a3110463a5aae7, 0x6c3d152875981d0c, 0x1daf2dcd65519ef5, 0xca8929851da8c008),
    (0x2974da7bc0743222, 0x73c3a4b91c05354c, 0xdc71640a8bbd1f86, 0x4b732f8163883314),
    (0x1ed0fb06699ba249, 0xb2a30621c05eb12c, 0xa29cb91aa082c8bf, 0xcce9c522889b47dc),
    (0x1c793ef0dcc51123, 0x654ff26d8d863fee, 0xae29e8c572eca912, 0xd80c8ae36e40fe9b),
    (0x1e6aac1c6d3dd315, 0x7956257d3d234ef1, 0x8c91e82589a78169, 0xfbb4a8770977dc2f),
    (0x1a20ada7576234ee, 0xe6273dd6fa98b25e, 0xd037748080a47d94, 0x8fcda33256fb6bf5),
    (0x191033d6d85ceaa6, 0xfc7a9a23a6fd9996, 0x642d772045ece513, 0x35d49306728af96c),
    (0x006e5979da7e7ef5, 0x3a825aa6fddc3abf, 0xc76f200b3740b8b2, 0x32ef481f5d06297b),
    (0x0b0d7e69c651910b, 0xbef3e68d417e9fa0, 0xfbd57f596c8f2983, 0x1eff8c0174cdb06d),
    (0x25caf5b0c1b93bc5, 0x16435ec084e2ecd4, 0x4ac46dbbb033c511, 0x2c4b20a25c9cdf9d),
    (0x12c1ea892cc31e0d, 0x9af8b796d9645872, 0xf7f77442d62fd4c8, 0x085b2f150f72472a),
    (0x16af29695157aba9, 0xb8bbe3afeb245fee, 0xe5a929d9f928b9b8, 0x1de6dadc78c32aae),
    (0x0136df457c80588d, 0xd687fb2f3be18691, 0x705b87ec5a4cfdc1, 0x68d31084256b67dc),
    (0x1639a28c5b4c8116, 0x6aea984fba6e7147, 0x9e07b1efbc74434d, 0xb95a285060e7b089),
    (0x03d62fbf82fd1d43, 0x13f8e650f587ec06, 0x816c28b700bdc50f, 0x7e232bd9b5ca9b76),
    (0x11aeeb527dc8ce44, 0xb4d14aaddca3cfe2, 0xf77a1e40fc6da97c, 0x249830de1edfde54),
    (0x13f9b9a412741294, 0x79c5e6138c6c8ee3, 0x6a670e6bc68c7a49, 0x642b645807bfc824),
    (0x0e4772fa3d75179d, 0xc8484cd26c7c1f63, 0x5ddeeed7a939440c, 0x506cae8b7ebcd15b),
    (0x1b39a00cbc81e427, 0xde4bdec58febe8d8, 0xb5971752067a612b, 0x39fc46a68c5d4db4),
    (0x2bedb66e1ad5a1d5, 0x71e16e2953f48731, 0xf66463c2eb54a245, 0x444d1c0a3a25707e),
    (0x2cf0a09a55ca93af, 0x8abd068f06a7287f, 0xb08b193b608582a2, 0x7379ce35da915dec),
    (0x2d1bd78fa90e77aa, 0x88830cabfef2f8d2, 0x7d1a512050ba7db0, 0x753c8fb863efb387),
    (0x065610c6f4f92491, 0xf423d3071eb83539, 0xf7c0d49c1387062e, 0x630d7fd283dc3394),
    (0x2d933ff19217a554, 0x5013b12873452beb, 0xcc5f9969033f15ec, 0x642fb464bd607368),
    (0x1aa9d3fe4c644910, 0xf76b92b3e13b30d5, 0x00dae5354e79508c, 0x3c49c8aa99e0258b),
    (0x027ef04869e482b1, 0xc748638c59111c6b, 0x27095fa773e1aca0, 0x78cea1f1c8450bdd),
    (0x2b7d524c5172cbbb, 0x15db4e00668a8c44, 0x9f67a2605d9ec038, 0x02e3fa136ad0b8fb),
    (0x0c7c382443c6aa78, 0x7c8718d86747c7f7, 0x4693ae25b1e55df1, 0x3f7c3c1dd735db0f),
    (0x00b4567186bc3f7c, 0x62a7b56acf4f7620, 0x7a1f43c2d30d0fe4, 0xa627dcdd9bd79078),
    (0x1e41fc29b825454f, 0xe6d61737fe08b47f, 0xb07fe739e4c1e61d, 0x0337490883db4fd5),
    (0x12507cd556b7bbcc, 0x72ee6dafc6165844, 0x21e1af872d8c0e89, 0x002ae8d3ba0653b6),
    (0x13d437083553006b, 0xcef312e5e6f52a5d, 0x97eb36617ef36fe4, 0xd77d3e97f71cb5db),
    (0x163ec73251f85443, 0x687222487dda9a65, 0x467d90b22f0b3866, 0x4686077c6a4486d5),
];

/// The MDS matrix for BN254 and width 5, row after row.
pub const MDS_BN254_T_5: [Limbs; 25] = [
    (0x251e7fdf99591080, 0x080b0af133b9e436, 0x9f22e57ace3cd7f6, 0x4fc6fdbcf38d7da1),
    (0x25fb50b65acf4fb0, 0x47cbd3b1c17d97c7, 0xfe26ea9ca238d6e3, 0x48550486e91c7765),
    (0x293d617d7da72102, 0x355f39ebf62f91b0, 0x6deb5325f367a455, 0x6ea1e31ed5767833),
    (0x104d0295ab00c85e, 0x960111ac25da4743, 0x66599e575a9b7edf, 0x6145f14ba6d3c1c4),
    (0x0aaa35e2c84baf11, 0x7dea3e336cd96a39, 0x792b3813954fe9bf, 0x3ed5b90f2f69c977),
    (0x2a70b9f1d4bbccdb, 0xc03e17c1d1dcdb02, 0x052903dc6609ea69, 0x69f661b2eb74c839),
    (0x281154651c921e74, 0x6315a9934f1b8a1b, 0xba9f92ad8ef4b979, 0x115b8e2e991ccd7a),
    (0x28c2be2f8264f95f, 0x0b53c732134efa33, 0x8ccd8fdb9ee2b45f, 0xb86a894f7db36c37),
    (0x21888041e6febd54, 0x6d427c890b1883bb, 0x9b626d8cb4dc18dc, 0xc4ec8fa75e530a13),
    (0x14ddb5fada0171db, 0x80195b9592d8cf2b, 0xe810930e3ea4574a, 0x350d65e2cbff4941),
    (0x2f69a7198e1fbcc7, 0xdea43265306a37ed, 0x55b91bff652ad69a, 0xa4fa8478970d401d),
    (0x001c1edd62645b73, 0xad931ab80e37bbb2, 0x67ba312b34140e71, 0x6d6a3747594d3052),
    (0x15b98ce93e47bc64, 0xce2f2c96c69663c4, 0x39c40c603049466f, 0xa7f9a4b228bfc32b),
    (0x12c7e2adfa524e59, 0x58f65be2fbac809f, 0xcba8458b28e44d92, 0x65051de33163cf9c),
    (0x2efc2b90d6881348, 0x49018222e7b8922e, 0xaf67ce79816ef468, 0x531ec2de53bbd167),
    (0x0c3f050a6bf5af15, 0x1981e55e3e1a29a1, 0x3c3ffa4550bd2514, 0xf1afd6c5f721f830),
    (0x0dec54e6dbf75205, 0xfa75ba7992bd34f0, 0x8b2efe2ecd424a73, 0xeda7784320a1a36e),
    (0x1c482a25a729f5df, 0x20225815034b1960, 0x98364a11f4d988fb, 0x7cc75cf32d8136fa),
    (0x2625ce48a7b39a42, 0x52732624e4ab9436, 0x0812ac2fc9a14a5f, 0xb8b607ae9fd8514a),
    (0x07f017a7ebd56dd0, 0x86f7cd4fd710c509, 0xed7ef8e300b9a8bb, 0x9fb9f28af710251f),
    (0x2a20e3a4a0e57d92, 0xf97c9d6186c6c3ea, 0x7c5e55c20146259b, 0xe2f78c2ccc2e3595),
    (0x1049f8210566b51f, 0xaafb1e9a5d63c0ee, 0x701673aed820d9c4, 0x403b01feb727a549),
    (0x02ecac687ef5b4b5, 0x68002bd9d1b96b4b, 0xef357a69e3e86b55, 0x61b9299b82d69c8e),
    (0x2d3a1aea2e6d4446, 0x6808f88c9ba903d3, 0xbdcb6b58ba40441e, 0xd4ebcf11bbe1e37b),
    (0x14074bb14c982c81, 0xc9ad171e4f35fe49, 0xb39c4a7a72dbb6d9, 0xc98d803bfed65e64),
];

/// The round constants for BN254 and width 5, round after round.
pub const RC_BN254_T_5: [Limbs; 340] = [
    (0x0eb544fee2815dda, 0x7f53e29ccac98ed7, 0xd889bb4ebd47c386, 0x4f3c2bd81a6da891),
    (0x0554d736315b8662, 0xf02fdba7dd737fbc, 0xa197aeb12ea64713, 0xba733f28475128cb),
    (0x2f83b9df259b2b68, 0xbcd748056307c377, 0x54907df0c0fb0035, 0xf5087c58d5e8c2d4),
    (0x2ca70e2e8d7f39a1, 0x2447ac83052451b4, 0x61f15f8b41a75ef3, 0x1915208f5aba9683),
    (0x1cb5f9319be6a45e, 0x91b04d7222271c94, 0x994196f12ed22c5d, 0x4ec719cb83ecfea9),
    (0x2eb4f99c69f966eb, 0xf8a42192de7ff616, 0x21c7bb47b93750c2, 0xb9ea08d18446c122),
    (0x224a28e5a35385a7, 0xc5198169e405d9ea, 0x0fc7da8b93ee13b6, 0xd5f7d099e299520e),
    (0x0f7411b465e600ee, 0xd8afdd6afca49c30, 0x36f33ecbd9a0f978, 0x23796b993bbd82f7),
    (0x0f9d0d5aad2c9555, 0xa2be7150392d8d98, 0x19b208ae3370f99a, 0x0626f9ff5d90e4e3),
    (0x1e9a96dc8292bb59, 0x6f52a59538d32922, 0x9732b25259cf744b, 0x6a12d30702d6fba0),
    (0x08780514ccd90380, 0x887d578c45555e59, 0x3cfe52eab4b945c6, 0xc2cd4d528fb3fe3c),
    (0x272498fced686c7a, 0xc8149fa3f73ef8c2, 0xced64717e3556d5a, 0x59f119d629ccb5fc),
    (0x01ef8f9dd7c93aac, 0x4b7cb80930bd06eb, 0x45bd350aff585f10, 0xe3d0ef8a782ef7df),
    (0x045b9f59b6595e61, 0x4dc08f222b469b13, 0x8e886e64bf3c40aa, 0x97ea0ae754934d30),
    (0x0ac1e91c57d9da91, 0x9fd6f59d2a40ff8e, 0xa3e41e24e247a387, 0xadf2584295d61c66),
    (0x028a1621a94054b0, 0xc7f9a421353cd89d, 0x0fd67061aee99979, 0xd12e68f04e62d134),
    (0x26b41802c071ea4c, 0x9632647ed059236e, 0x50c19c3fb3c96d09, 0xd02aae2a0dcd9dbc),
    (0x2fb5dda8072bb72c, 0xbaac2f63e468215e, 0x05c9de06758db6a9, 0x4af34384aedb462b),
    (0x2212d3a0f5fccaf2, 0x44ff3547fd823249, 0xad8ab8ba2a18d383, 0xdd05c56ee894d850),
    (0x1b041ad5b2f06842, 0x58e4dfaeea09be56, 0xa3276fdb19f44c01, 0x5cd0c7eed465e2e3),
    (0x0a01776bb22f4b6b, 0x8eccff33e76fded3, 0x144fb7e3ac14e846, 0xa91e64afb1500eff),
    (0x2b7b5674aaecc3cb, 0xf34d3f275066d549, 0xa4f33ae8c15cf827, 0xf7936440810ace43),
    (0x29d299b80cd4489e, 0x4cf75779ed54b48c, 0x60b042257b78fc00, 0x4c1b803381a3bdfd),
    (0x1c46831d9a745293, 0x57641c219d721a74, 0xa427110032b5e1dd, 0x19dde30424be401e),
    (0x06d7626c953ccb72, 0xf37141dc34d578e0, 0x36296c0657674f80, 0x739ae1d883e91269),
    (0x28ffddc86f18c136, 0xc54002748e0c410e, 0xdc5c440a3022cd96, 0x0f108c71cda2930c),
    (0x2e67f7ee5e4aa295, 0xf85deed09e400b17, 0xbe67f1b7ed2ab6ad, 0xb8ec0619f6fbc5e9),
    (0x26ce38fa636c9063, 0x0e97f25114a79a2d, 0xca56859ef759e53c, 0xe7abf22c24e80f27),
    (0x2e6e07c3c95bf7c3, 0x4dd7a01d00a7ffec, 0x42cb3d16a1f72721, 0xafacb4c4cfd35db1),
    (0x2aa74f7597f0c9f4, 0x5f91d7961c3a54fb, 0x8890d276612e1246, 0x384b1470da24d8cc),
    (0x287d681a46a2faae, 0x2c7c090f668ab45b, 0x8a71313c1509183e, 0x2ec0ca639b7f73fe),
    (0x212bd19df812eaae, 0xf4a40600528f3d7d, 0xa5d3106ff565aa3b, 0x11e29f3305e73c04),
    (0x1154f7cf519186bf, 0x1aafb14b350eb860, 0xf97fd9740926dab9, 0x3809c28404713504),
    (0x1dff6385cb31f1c2, 0x4637810a4bd1b16f, 0xbf5152905be36583, 0xda747e79661fc207),
    (0x0e444582d22b4e76, 0xc081d34c44c18e42, 0x4011a34d54762528, 0x63ea3c606b551e5c),
    (0x0323c9e433ba66c4, 0xabab6638328f02f1, 0x815773e9c2846323, 0xff72d3aab7e4eff8),
    (0x12746bbd71791059, 0x193bba79cdec448f, 0x25b8cf002740112d, 0xb70f2c6876a9c29d),
    (0x1173b7d112c2a798, 0xfd9b9d3751842c75, 0xd466c837cf50d73e, 0xfd049eb4438a2240),
    (0x13d51c1090a1ad48, 0x76d1e555d7fed13d, 0xa8e5713b25026ebe, 0x5fdb4808703243da),
    (0x00874c1344a4ad51, 0xff8dcb7cbd2d9743, 0xcb72743f0394efe7, 0xf4a58ebeb956baa1),
    (0x22df22131aaab858, 0x65ce236b07f244fa, 0x0eea48d3546e97d6, 0xa32a562074fef08f),
    (0x0bf964d2dbd25b90, 0x8708b437a445fc3e, 0x984524a59101e6c1, 0x8bf5eb05a919f155),
    (0x09b18d9b917a55bc, 0xa302be1f7f181e0e, 0x640b9d73a9ab298c, 0x69b435b5fc502f32),
    (0x094f5534444fae36, 0xa4bfc1d5bf3dc05b, 0xfbbbc70a6365366d, 0xd6745a5067289e43),
    (0x2999bab1a5f25210, 0x519fa6622af53a15, 0xa3e240c0da5701cb, 0x784fddc0dc23f01f),
    (0x2f6898c07581f637, 0x1ca94db73710e880, 0x84301bce8a93d136, 0x69575a11b03a3d23),
    (0x07268eaaba08bc19, 0xec16d7e1318a4740, 0x565deb1e8e5742f8, 0x62174b1a6866fccb),
    (0x186279b003454db0, 0x1339ff77113bc9eb, 0x62603e078e1c6689, 0xa6c9582c41a0529f),
    (0x18a3f736509197d6, 0xe4915bdd04d3e5dd, 0xb67e2cc5de9a2275, 0x0768e5524737172c),
    (0x0a21fa1988cf38d8, 0x77cc1e2ed24c808c, 0x725e2d4bcb2d3a00, 0x7b5987b87085671d),
    (0x15b285cbe26c467f, 0x1faf5ef6a6462522, 0x8328c184a2c43bc0, 0x0b36a135e785fba2),
    (0x164b7062c4671cf0, 0x8c08b8c3f9806d56, 0x0b7775b7c902f578, 0x8cd28de3e779f161),
    (0x0890ba0819ac0a6f, 0x86d9865fe7e50ef3, 0x61c61d3d43b6e65d, 0x7a24f651249baa70),
    (0x2fbea4d65d7ed425, 0xa42712e5a721e4ea, 0xa627ac5cb0eb878c, 0xcc2ee0aed543e922),
    (0x0492bf383c36fa55, 0x540303a3b536f85e, 0x7b70a58e854ab9b9, 0x103d7f5f379abaaa),
    (0x05e91fe944e94410, 0x4e20251c565142d6, 0x1d6185a9ce85675f, 0x6a969d56292dc24e),
    (0x12fe5c2029e4b338, 0x93d463cb041acad0, 0x995b9621e6e49c3b, 0x7e380a76e36e6c1c),
    (0x024154adf0255d47, 0x958f772392147413, 0x1f2629fadc894969, 0x06cd01dc6fa0784e),
    (0x18824a09e6afaf4a, 0x36ed2462a86bd0ba, 0xd798815644f2bbde, 0x8813c13457a45550),
    (0x0c8b482dba0ad51b, 0xe9f255de0c3dbddd, 0xdf84a630af68d50b, 0xbb06983e3d5d58a5),
    (0x17325fd0ab635871, 0x363e0a1667d3b67c, 0x5a4fa67fcd6aaf86, 0x441392878fdb05e6),
    (0x050ae95f6d2f1519, 0x122f5af67b690f31, 0xe550773fa8d18bf7, 0x1cc6d0e911fa402e),
    (0x0f0d139a0e81e943, 0x038cb288d6263676, 0x4bbb6295f0756988, 0x5771ec84edc50c40),
    (0x1c0f8697795689cd, 0xf70fd2f2c0f93d1a, 0x79b39ebc7a1b1c54, 0x9dbbca7b8e747cd6),
    (0x2bd0f940ad936b79, 0x6d2bc2e048bc979e, 0x49be23a4b13598f9, 0xfe536a16dc1d81e6),
    (0x27eb1be27c9c4e93, 0x4778c09a0053337f, 0xa06ebb275e096d16, 0x7ce54d1e96ee62cb),
    (0x2e4889d830a67e5a, 0x8f96bdd3155a7ca3, 0x284fbd307d1f71b0, 0xf151be62548e2aea),
    (0x193fe3db0ab47d3c, 0x5d2ec5e9c5bd9983, 0xc9891f2cadc165db, 0x6064bbe6fcc1e305),
    (0x2bf3086e96c36c7b, 0xce415907ad0c40ed, 0x6e9661c009679e4e, 0x37cb13027c83e525),
    (0x12f16e2de6d4ad46, 0xa98cdb697c6cad5d, 0xd5e7e413f741ccf2, 0x9ff2ea486e59bb28),
    (0x2a72147d230119f3, 0xa0262e3653ddd19f, 0x33f3d5d6ec6c4bf0, 0xad919b0343b92d2f),
    (0x21be0e2c4bfd64e5, 0x6dc47f957806dc5f, 0x0a2d9bcc26412e29, 0x77df79acc10ba974),
    (0x0e2d7e1dc946d70b, 0x2749a3b54367b25a, 0x71b84fb911aa57ae, 0x137fd4b6c21b444a),
    (0x2667f7fb5a4fa124, 0x6170a745d8a4188c, 0xc31adb0eae3325dc, 0x9f3f07d4b92b3e2e),
    (0x2ccc6f431fb74007, 0x30a783b66064697a, 0x1550c12b08dfeb72, 0x830e107da78e3405),
    (0x08888a94fc5a2ca3, 0x4f0201462420001f, 0xae6dbee9e8ca0c24, 0x2ec50621e38e6e5d),
    (0x02977b34eeaa3cb6, 0xad40dd42c9b6fdd7, 0xa0d2fbe753af88b3, 0x6acfcd3ccbc53f2a),
    (0x120ccce13d28b75c, 0xfd6fb6c9ea13a648, 0xbfcfe0d7e6ff8e96, 0x10b5e9f971e16b9a),
    (0x09fad2269c4a8e93, 0xc81e1b9770ea098c, 0x92787a4575b2bd73, 0xa0bf2af32f86ff3c),
    (0x026091fd3d4c44d5, 0x0a4b310e4ac6f0fa, 0x0debdb70775eeb8a, 0xf630cffb60092d6f),
    (0x29404aa2ba565b77, 0xbb7fba9dfb6fc321, 0x2543cc56afad6afc, 0xb904fd2bca893994),
    (0x2749475c399aaf39, 0xd4e87c2548695b4e, 0xf1ffd86590e0827d, 0xe7201351b7c883f9),
    (0x098c842322479f72, 0x39912b50424685cb, 0xa2ebe2dc2e4da70a, 0xc7557dab65ffa222),
    (0x18cef581222b647e, 0x31238e57fead7d5c, 0x758ace14c93c4da4, 0x0191d0c053b51936),
    (0x13177839c68a5080, 0xd4e746745e43711d, 0x3cbc0ca4a108f98d, 0x63b2aa681698de60),
    (0x020ca696f531e43e, 0xc088f56f4b743256, 0x26cc4df712c0e5f0, 0xa907d88e5f0deffd),
    (0x27230eede9cccfc9, 0xfa805a30fc548db6, 0x93d13708c646841d, 0x16e028387c7ac022),
    (0x01645911c1198b01, 0xd64fde34a342a178, 0x6497c05969a01543, 0x9057d2fe75bb281c),
    (0x2c323fe16481bf49, 0x6e439c88341ce25f, 0x198971e14487056c, 0xfdca4a451a5d8643),
    (0x0fc082dfe70728e8, 0x450bd2074c3e22e1, 0xb022c124d3bffe8b, 0x5af88ae6db5085c8),
    (0x2052c174800db209, 0xd8cdca568dcc25b3, 0xbe9642116ac4c77e, 0xfe8a488b423521ee),
    (0x28e420e10df2fbb5, 0xaf96d621d5542319, 0x0be351ce8129065a, 0x8dd9fd05b3ece9c0),
    (0x25698ca5e24a1b79, 0x9f783c4462a24db6, 0x55d6ae1bdacd1cb5, 0x49d6e0bc3ae5069a),
    (0x160a9981a5c89a57, 0xcf8ffbfa57d51049, 0xa297b61074422ac1, 0x34d9b857d6984d35),
    (0x21c91a39e145c3bc, 0x34d9b694b843f3bf, 0x8b7cebf59ddbb0a0, 0x64642b069997f3d4),
    (0x1ac8d80dcd5ee876, 0xd2b09345ef112345, 0xd6eaa029d93f03b6, 0xd10975461e41734c),
    (0x0ab3e6ad0ecf8b8e, 0x7c1662a4174c5222, 0x5d822895e2755544, 0xb8dbcea5657ce02c),
    (0x1c675182512620ae, 0x27e3b0b917b3a21c, 0xa52ef3ef5909b4e1, 0xc5b2237cbdab3377),
    (0x2cdbc998dfd7affd, 0x3d948d0c85bad2e2, 0xe37a4a3e07a7d75d, 0x0c8a9092ac2bed45),
    (0x23b584a56e2117b0, 0x774bf67cc0dee333, 0x24337350309dff83, 0x3e491a133bb63b2e),
    (0x1e9e2b310f60ba9f, 0x8cb73030a3c9d2a1, 0x0d133bc6ba4ec115, 0x2f3d20de1465e9a5),
    (0x0e01e365ba5b3031, 0xabc3e720140ae746, 0xc9ab5dab987520c4, 0x60bcd4f1fa5b22db),
    (0x040884cdcfc64bfc, 0x7b7127340498d5c4, 0x43382011b61c9a4b, 0x1387d85bc1264e68),
    (0x190b1ee1205eb950, 0x0c74a3998f2bea36, 0x353f1724d6067ed0, 0xa0a17de311ef9668),
    (0x1647c72aec6c4388, 0xd04f52fc23cd9c08, 0xc1dfcf65ce61e165, 0xfc28d1f832bd3b2c),
    (0x2430006346a0145f, 0x799880cc4c873626, 0x9f5494d89fb48b02, 0x842e595b71e4541d),
    (0x177b9a08343917e1, 0x365107a3da3ae7f6, 0x9d853902bb16bacb, 0x3221850252b757af),
    (0x04a420e642b11ae9, 0x4e58862a68f5e326, 0x09cd53d0ae294234, 0x39b11d04666df4f8),
    (0x25d0e0f739fb39fc, 0x105a88fab0afd810, 0xde2461858e956ccc, 0xcdfabeddb6a25c8f),
    (0x04476d91b7eff2fd, 0x85905cbf58651edc, 0x320cb15610eaed45, 0x2c4d4ffa0c740a27),
    (0x1090c0b68b3d7d7b, 0x8bc9ca2419eb8dea, 0x1c28f6d5e1250cb5, 0xe9780fd9ca286fae),
    (0x25393ce3b9256d50, 0x448a725c5c7cd5ad, 0x376f2d435855c10e, 0xbf2899cb5c6617be),
    (0x25931c0c7371f4f1, 0xfc862f306e6e5830, 0xed824388d6b93426, 0x97d144f0fab46630),
    (0x2396cb501700bbe6, 0xc82aad51b0fb79cf, 0x8a4d353185d58082, 0x03f73f22afbf62f6),
    (0x26a363483348b589, 0x54ea748a7129a7b0, 0xa3dc9068c3cca7b5, 0xb3f0ce03b8724884),
    (0x27ca107ca204f2a1, 0x8d6f1535b92c5478, 0xc99b893334215f6b, 0xa7a0e5b45fcd6897),
    (0x26da28fc097ed77c, 0xe4662bde326b2cce, 0xac15f7301178581d, 0x8d2d02b3b2d91056),
    (0x056ab351691d8bb3, 0x703e3055070ac9cc, 0x655774c1bb35d575, 0x72971ba56ee0cb89),
    (0x2638b57f23b754ae, 0xc76d109a2f481aa3, 0xc22547a11ffc5015, 0x2d729af632376a90),
    (0x304754bb8c57d607, 0x32f492c2605184fd, 0xc33e46a532bdec80, 0xea7bc5519ede7cef),
    (0x00d1727f8457ee03, 0x514f155b5806cbf7, 0x48ec6857fc554010, 0x752ac93a9b7619ac),
    (0x00ee1f3c66fbc05c, 0x43ba295a303c72fa, 0xb5bca86805ec9419, 0xc588e50947761fa3),
    (0x0afafadcf5b4dd4a, 0x4a76b5a1d82415fd, 0x10a19fbcfc59078c, 0x61f9297eb675d972),
    (0x0b2449f39746085e, 0x86ce45e8eed108ee, 0x65a234835a0a6a5e, 0xa8996d124dd04d0a),
    (0x206b0ce2f1b2c5b7, 0xc9f37b0045227095, 0xf6c6f071ec3bdda7, 0x6a7ddf4823dd5dd6),
    (0x0feba4fb87834c7c, 0xb696e67433628cd6, 0xcaffc3a4ef20fea8, 0x52c7e1029459409c),
    (0x254dbfac74c49b0b, 0x8926752e084e0251, 0x3b06f1315e6d70e1, 0x8173e972336e55d3),
    (0x0addb1372cee4e16, 0x4655168c367559e1, 0x9606c5bd17910aeb, 0x37719edfa0ca8762),
    (0x26b25b7e257f3e97, 0xc799024fb019f65c, 0x6ca4d8d81b1ae162, 0x21a589d68831d759),
    (0x090995b79acec240, 0x413b8d4c658787e5, 0xa4657b9ab00bdb5b, 0x1960b1059e113ba3),
    (0x08dbdc2e21ef11f2, 0xc57299687843cea3, 0xeb0d8e40e99131f4, 0x2974178d44f73b7b),
    (0x09e8aba671481197, 0x679faf752a0f78e3, 0x42fe9c491596ab67, 0x58f170939785179f),
    (0x1deb05180e833e45, 0x659052a7ebaf816c, 0x7efd12a7f9eec94b, 0x7bc7c683f1363d5c),
    (0x19a70ec6bdfc9098, 0xa926efbcc04aa9ee, 0x248997e8b2c24af3, 0x35fd6523e5250879),
    (0x21d773660adafb8a, 0x879986f9aab48905, 0x66353a3777d8a3f1, 0xeb93abe10bbf1f64),
    (0x09f1890f72e9dc71, 0x3e20ba637b89d5d3, 0x97a6b01fcd667347, 0xf6f46617841c3901),
    (0x05af459361eb454d, 0x2a300c61e446998d, 0x48fa1f897bf219d6, 0x08c2145c33b111c3),
    (0x0fa1a1d6829f0345, 0x664a66dc75a65733, 0x5f336f15f340756c, 0xfa12fc850cc8b513),
    (0x02e47a35bcc0c3a0, 0xbda0b1c0307ad543, 0xf4280fcf87f636f8, 0x53655cf97a628bb0),
    (0x14f773e9834c6bde, 0xb8f90e78bf4c24b7, 0x2034114601124910, 0x36621895204d0f12),
    (0x102d98cf502ed843, 0x255cf19d29bc7d8e, 0x642abe7cfd639992, 0xffb091962fc8f7cc),
    (0x043dd5f4aa5a76dd, 0x4c47f6c65da7ca23, 0x20d4c73ad3294738, 0xcba686a7e91373c2),
    (0x21833819c3337194, 0xa6c0d29a48d4f267, 0x6f0e7c79743a306f, 0x4cfdb2b26bd11efa),
    (0x0f281925cf5ee649, 0xb474a6819d116ca3, 0xeb4eca246c311eca, 0xdc53262a3cff2b53),
    (0x0d3e2477a7b10beb, 0x44709c7746d6824e, 0xdf625dd60504d5dc, 0x93ce662f15c238d6),
    (0x2cd7f641bedbf669, 0x56ff8a01be9cde35, 0xd80f80ab51e73b49, 0xacbfc3eff5aefc44),
    (0x29e95b492bf2f95f, 0x4d09380f98b74e38, 0x9149d24045811d7a, 0x86dd861310463cf8),
    (0x22da66bc62e8f011, 0x266efca86a6c810f, 0x9ae4c51af6ffeb57, 0xf8b3c50df83cc13e),
    (0x0fe6d30de7a82d16, 0x3023491794f4aca3, 0x220db79e8129df36, 0x43072d841925554a),
    (0x0050e842a1299909, 0x123c46eff185c23a, 0xd312d03fef1adfec, 0xc7e07ecb298fd67f),
    (0x2130a3a7b3221222, 0xbe34cc53a42d7733, 0x666f9ddf714ed7c5, 0x885cbbdb63108c21),
    (0x2df9ee294edf99e3, 0xd8d5883fe0566c24, 0xaa66731f34a93280, 0xe1d328e67b33c9fa),
    (0x1bf7d6e489ad8c0c, 0xf26eb68cc21ff541, 0x58132396dc250aeb, 0xa4b6fc5fc3372762),
    (0x0c602fa155be9587, 0x61eaf739617ab136, 0xcf7b807728bf7fe3, 0x5d4778d311780e54),
    (0x2e50e2c5b36aa205, 0x32407d86b8d22d7d, 0x5154080a24972fae, 0xb63faf0121ed7f21),
    (0x17c2510982a7b582, 0x5710d6290ec4f782, 0xf674995ee8409b42, 0xb459123b180332e1),
    (0x0b0d52f03c8af727, 0x6803ecf2465b885b, 0x21337b538eabd2f6, 0xb2ab255f376b42a8),
    (0x0f5633df1972b945, 0x5953d88a63f80647, 0xa9ac77c6c0f85d45, 0x61972dd8fab8bd14),
    (0x0ebf7ad29ca13804, 0xe1422e9396811551, 0x24780ff43e76e929, 0x035498130a7f1572),
    (0x1aff13c81bda47e8, 0x0b02962173bba343, 0xe18f94bee27c8a57, 0x661b1103a720ffe2),
    (0x210449dbf5cf3061, 0xda2465be85505862, 0xd3f31de1a3b58ff3, 0x5713be57efac6c07),
    (0x088230c2794e50c5, 0x7d75cd6d3c7b9dbe, 0x19d1e2f1d3001044, 0xb93ad1c3ee629817),
    (0x1c408c256490b0a1, 0xda08dc464138dfc7, 0x8cce9a9e16c77056, 0x17a4d6dbb20e7e3a),
    (0x074517e081eb4c1f, 0x22d1771200fb0765, 0x8f7c77654d584404, 0x90dd6f557e9e3903),
    (0x02d04e9c21df1dbd, 0x88524bdb203691b4, 0xcee5530559d6cf0f, 0xa05adf61e12fdcbf),
    (0x2eb7a011b8bce910, 0x82e13ebd75de3b58, 0xeb9b4650dae9f11a, 0xa81db32cf1b67b13),
    (0x2efda77ed35f4af0, 0x299f75d6e8a849b5, 0x4d2ac6bf95368304, 0xe6030c18f0cf17b5),
    (0x09199dcafd50ce64, 0x2eddbeda65206d4f, 0x61a73d10852b8114, 0xc51b2440192ae064),
    (0x268c5cfc446d399c, 0x4dd319db666a75b5, 0xcb655d8c1797e9fa, 0x76181cb4216e1562),
    (0x2303a652c9490718, 0x26b0e9a36c805786, 0x97b44e912cce6687, 0x012854eda11a18dc),
    (0x27c53563b12a6ee2, 0xc3f041f31dc45922, 0xbc5353eb110868d2, 0x37073f4efb35fbdf),
    (0x1201a87eaf4ae618, 0xf02bd82d0a510904, 0x9969b5248cfe90f4, 0x2c278f22615d2b0e),
    (0x2c43169439fcd69e, 0xad8214997bb069be, 0xcafcb1ba2c51e570, 0x6cb4b43dab2a443d),
    (0x0683597315359040, 0xea03c45d6984c689, 0x4f46cbb36d702e3c, 0x4fb9847e6304d944),
    (0x03545706706eab36, 0xafb93b128febd16f, 0xb0425e158314197b, 0x77795ad3a798d183),
    (0x1a33c254ec117619, 0xd35f1fc051b31728, 0x740bed23a6a37870, 0xedb393b71a0c0e6b),
    (0x1ffe6968a4470cd5, 0x67b0c002281caf99, 0x6e88f71e759b87e6, 0xf338e517f1690c78),
    (0x0fd66e03ba8808ff, 0xecb059c899fd80f4, 0x140ddd5d2a5c4483, 0x107f4e02e355b393),
    (0x263ab69f13b966f8, 0x197394552906b17e, 0x6c8617a7bdd5d74a, 0x7be3396b7fe013ab),
    (0x16a425e47d111062, 0x5054d5a165de413e, 0x3bd87d5aa3958fdd, 0x6eb7e03e39ba4046),
    (0x2dc510a4719ec10c, 0xad752f03c673f0e2, 0x53cc31d13e39e909, 0xfcc5f73af9138d9a),
    (0x24df8e8d856c5b5e, 0x1bd1cad23d07dda3, 0x423c5179329b7a82, 0xcb4aa709a94576e5),
    (0x2bcc94ff4fc3c76f, 0x3cd5c68915a042e8, 0x7628249a01b09561, 0xbdf24a6cdce5620f),
    (0x076c1e88dc540c8d, 0x8de54e343df7c429, 0xd3295f52c38cffe6, 0xb48be86852da97df),
    (0x09b5f209a451ac43, 0x1c051fb12d9a5e4f, 0xe40ee1601120947d, 0xa990fb8e12cb46e1),
    (0x205f17b0d8729e2e, 0xaa88d6a44135a6ab, 0x64e9424f55b0f1ea, 0x0683af75eb677c07),
    (0x281c5c688836f6cf, 0x912638c38be046cd, 0x091681f0a4176172, 0x0cdd1edf9f237029),
    (0x1a053e6878e900f4, 0x5f4d67448c471cf3, 0x009a44e7a02ea50e, 0x4afa44f2592621f5),
    (0x100dc7d426debe30, 0x07fb7ceac84e4f54, 0x68efcb897e7bbee9, 0x81742839d59e064c),
    (0x17022672a016a957, 0xbb87e2cfadc8b75f, 0xb28905bdb62c82c8, 0x0b1cb31b411e49c8),
    (0x1086db7e2760fc8b, 0x71053a87ebe15123, 0x9fb8b547182b170d, 0xe0c27203f954f4d2),
    (0x15384fe39d73b633, 0x02460ae4c2942fac, 0x2b41fb65a185536f, 0xb85dd24fd7584064),
    (0x2ebb599fe9136d42, 0x4bf4abc5342c6c74, 0x47b1a853205fcfb5, 0x519e551357709008),
    (0x1b4b5e87cfb9262c, 0xfec3c0f0542e4c5a, 0x4cf278292b4ce3ee, 0xd996fac6f4d37288),
    (0x2465053ae50b6885, 0x801f3f82e302cafb, 0xbb4a7581bb4fba60, 0xb637febe659e5057),
    (0x114f32edcdea09cd, 0x095c5bb5d38f1b97, 0xda9f05e18b3708bf, 0x6e0ab9d3d54859ef),
    (0x2bc70dfeb2baab2f, 0x6b387cd77be779ac, 0x2e5e5519f3d18123, 0xee28d8c2543c7148),
    (0x01c9bf7a203ce22b, 0x775e3a61ad7e77b6, 0xa78348b9f6ec68a4, 0x12e49bfe32c05415),
    (0x0514b0fe5909ea88, 0x7bedb0295fbbcec3, 0x55cfb575ff6a97cd, 0x9f4ad00ccb57ee9b),
    (0x267c76ec81934cc8, 0x1a132a8b058910a1, 0x2092520b12a201af, 0x03e3202d7b6c1b7e),
    (0x29170e3322b3d8d5, 0xc78c84babbb470ad, 0xf1622493ce83e95c, 0xfb151cf757bde5d6),
    (0x019f6a8124b19e33, 0xaf33e5d3873f9c33, 0x5c6f09a45486cab5, 0x36dd596ca41d9519),
    (0x1904aa4d6908544a, 0x8b348e9db1981c27, 0x009ed8ea171518ae, 0x5405d036242b60e9),
    (0x26f17873949bc679, 0xf7f043956694e422, 0xb3cee1de9dd6f647, 0x3b932a476455ff1a),
    (0x1ac668f612b8243c, 0x193b33720b8aa540, 0x40c476031197131e, 0xbdcac9b18bc48f75),
    (0x0996d961a75c0d07, 0x196dae45bf624766, 0xccfbf8555be9796d, 0xa52f81568ef0663d),
    (0x030c97e1b8cad1d4, 0xfd50d1b4383fbe66, 0x74d171f99c63febb, 0x5425b395c24fc819),
    (0x06e3ad6a46900e2d, 0x3953370255b68f89, 0xb3e523f1fe502642, 0xee226f2d8bd0848f),
    (0x1d6b3755331cd021, 0x6b6880e42f9880f5, 0x65cb94b0e0455153, 0xa329890588cc916e),
    (0x28e4dcba4b96f12a, 0x59b041535e730ac8, 0xc35189dc0b85ac03, 0x3dd38c08bae531f2),
    (0x08b6086046a83550, 0x8ccf484f2974b6a6, 0xb0712a476260376c, 0x7a3b3e4bc4a47a14),
    (0x162cd2ca7fe3b5f1, 0x444bcec97812019b, 0xb6fd85fba6a0536a, 0x89643e15b9bb3b52),
    (0x28f1e03baaea9bbc, 0x05af5b11937e4f5c, 0xb5c9a9c1192063d1, 0x998c01c64d483a76),
    (0x1bdb062778d7c15d, 0xa395af2734c25faa, 0x0127d2aab4aa7136, 0x6031a0bb6791ce10),
    (0x2375839502e09890, 0xcb2914e829627e0e, 0x0fc98870b2324a8b, 0x50329ebdd24749cb),
    (0x1fa8662fbcb61fb3, 0xad7c55668dc9423a, 0x332dc87cfb2df456, 0xe92d33611ed7bb50),
    (0x1e4fad2dd6b0a6f1, 0xf8707f721716c8a4, 0x46e2fb2c47a5138f, 0x3f7f9736079d7694),
    (0x211256d16c7269fd, 0x6df6f5fcdd1fa788, 0xba3bd050059f53d2, 0x61b0f5f13731ffe7),
    (0x2e49084b336eceaa, 0x4f8e2a2e6af08318, 0xf42060e574dda341, 0xf4a1079b12bcc5a5),
    (0x0ce19f54cdc39f7f, 0x3bf35192ac680821, 0x1aecea08dfe14cab, 0x758d25891fb00bb9),
    (0x0011c5d56c390e89, 0x3cc394221261d874, 0x8dc60451e4ae4e1c, 0x84a8468bab2c14cb),
    (0x17d79ff06b63ac2a, 0x8a9e05ee6af3dbb7, 0xca60e17bfa39b475, 0x14a8cd8051579b4c),
    (0x19a7d3a446cb5393, 0xdc74560093592b06, 0xb1a8b35cd6416a2e, 0xcab00173639015fa),
    (0x030c00a0933dcdba, 0x2a808b2e1b9282f3, 0x31f04596d8928da7, 0xaa6c3c97237037a6),
    (0x16bcb447ce2d50f3, 0xae25ad080695382e, 0x935d2d00184c4acc, 0x9370be8aab64139c),
    (0x12341b46b0150aa2, 0x5ea4ec8715312997, 0xe62124f37cab7b6d, 0x39255b7cd66feb1d),
    (0x0e86d13917f44050, 0xb72a97b2bf610c84, 0x002fc28e296d1044, 0xdc89212db6a49ff4),
    (0x08e6eb4089d37d66, 0xd357e00b53d7f30d, 0x1052a181f8f2eb14, 0xd059025b110c7262),
    (0x2ea123856245f6c8, 0x4738d15dd1481a0c, 0x0415ccb351a1e0ce, 0xe10c48ce97ca7b18),
    (0x2dca72b2ebcab8c2, 0x3446e00330b16310, 0x4195789025413abf, 0x664db0f9c84dfa6f),
    (0x06ff9ed50d327e84, 0x63329f585ec924b3, 0xf2f6b4235f036fa4, 0xc64a26cbd42b6a6b),
    (0x246a10b7e3e00899, 0x47f7c9bda3d54df8, 0xe2a60e0cca84ea2a, 0xc630a4535afbf730),
    (0x22a63501c5f04b90, 0x18719ed99d700ee5, 0x2f846a715ae67ad7, 0x5c96b39d688b6691),
    (0x2f4c50477f7fd9c6, 0x71799ac5d2e224cd, 0xb9164f58351d8aa1, 0x40ec07e514fae937),
    (0x10ffb7aad1f51c7d, 0x13b17f4d876d9a1e, 0x38f0ba8a4a23d4b5, 0x0cda32cad851567e),
    (0x0e9cefddc3c2d3be, 0xa4d39722532d5420, 0x784027352187e7af, 0x1a056935c35803ae),
    (0x07af84a4d3141e7a, 0xc23352e6dc6ea4af, 0xa1656f96a33c8978, 0xa3e83bdd4ba62b41),
    (0x2d9e31a10aebc761, 0xf8de00d14b1e566d, 0x1a39323d6e89b638, 0xe940f3ec8a22c3c5),
    (0x27f19a6532e66b53, 0x33db1afd592f66f1, 0xd36034b314dad844, 0x7656747be27e64c7),
    (0x0058fa3c8454d633, 0x54b2024c3b4a577a, 0x180ed99f8f3155cd, 0x7e4d617d47d07ffd),
    (0x041627b6715b7809, 0x67957c080699343e, 0xb0414a205d3a175d, 0x708964956816a5d5),
    (0x006ac49dd9253edc, 0x7f632e57b958ccec, 0xd98201471cf1f665, 0x89888f12b727c52d),
    (0x0131adffd8bd7254, 0xb1d8c3616bbe3386, 0xec0c9c0d6d25a9a4, 0xec46a6bf18301398),
    (0x1c4a6f52c9fccf7a, 0x4138e413ef62a283, 0x77977ad7e25e49a3, 0xcf030e1cd8f9f5b6),
    (0x03f2a6be51ec677f, 0x946551b3860ea479, 0xfee048ae2078aeb7, 0xd1f7958d2c2645f6),
    (0x2da770aad2c2eb09, 0x391a0cb78ef3a964, 0x8a1372d854311956, 0x4d7376396b8ddc62),
    (0x15278463665f74cd, 0xdc1802febfab02ce, 0xc9d45fe866c359c7, 0x38062afb75d64a03),
    (0x12fe278aa36544ea, 0xc9731027090518d4, 0x34e38ea966a08a6f, 0x8d580638ac54c773),
    (0x149b9c802182558a, 0x4c45d119d3f4cc7f, 0xd8587604ca4f0d6e, 0x21b06ff30b6a23b6),
    (0x0812e7b4d847bc85, 0x17d19319772f3c98, 0x55e044fd60dbac9a, 0x0adc4959b691dfe4),
    (0x02ed8d8ddeafe3d9, 0xd8df7f28a0bfaa7f, 0x555813c7e7503aea, 0x2a66973703a0c61b),
    (0x0ebd073ba0537b51, 0x4deb6029f921029e, 0x55e5e4d9a03d6b6b, 0xa1304038662d4db8),
    (0x15c754d5b14b2c42, 0x05c6ba8d2ccd0282, 0x55b3e792c6afa08b, 0x44ee75b62eff9f59),
    (0x169515c89ac5479d, 0xb0ed8fa6fa311b39, 0x1cc1235270f4cbc5, 0xc29e7cbc30e8732a),
    (0x25479fbfb3a68f98, 0x2388f26210011016, 0x08bdc29f6ff03769, 0x6d9161f5cd9a4fef),
    (0x14475c4bd520451f, 0x3c852cb0311a578c, 0xa7f8e6e972182196, 0xce09486e94be6071),
    (0x045a691066cc66be, 0xc9baf2798833a1df, 0xd3a847502aec8d5f, 0x5c4e73363d097799),
    (0x26029c0c267c799f, 0xb833ac8a11e3a3f0, 0x147a8ca037221b90, 0x013b8bcb37eba683),
    (0x163facb34ff572fb, 0xf7c946969c1c2608, 0x73ce12a6a94a3e45, 0xb8101d5b948d1641),
    (0x2c714e96e1913b35, 0x1d969320cc69d5ec, 0x13e06a6275e58688, 0xaf8ee00c4240ee28),
    (0x1c1661e2a7ce74b7, 0x5aba84665ecd2bf9, 0xddd6268f06debfe2, 0xd52b804eff1d5fa6),
    (0x06a69ae795ee9bfe, 0x5e5af3e6619a47d2, 0x6635b34c2a0889fe, 0xa8c3c068b7dc2c71),
    (0x113d58535d892115, 0xc5d28b4c19a36093, 0x74dbdbadf54195c7, 0x31416c85d731d46a),
    (0x2ab89102e2b8d5e6, 0x38ff97d761da6042, 0xe534f1ff47f7917a, 0x2ca1a74063b46101),
    (0x03c11ca79e41fdfe, 0x962730c45e699546, 0x349031893da2b4fd, 0x39804fd6a15ad1b3),
    (0x27096c6726214038, 0x88014ddbbbfc9da1, 0xf7f67b4d4cfe846c, 0x6adf040faaf2669c),
    (0x2de32ad15497aef4, 0xd504d4deeb53b13c, 0x66db790ce486130c, 0xaa9dc2b57ef5be0d),
    (0x0dc108f2b0a280d2, 0xfd5d341310722a2d, 0x28c738dddaec9f3d, 0x255754448eefd001),
    (0x1869f3b763fe8164, 0xc96858a1bb9efad5, 0xbcdc3eebc409be7c, 0x7d34ca50365d832f),
    (0x022ed3a2d9ff31cb, 0xf82559fe6a911843, 0xb616945e16a568d4, 0x8c6d33767129682d),
    (0x2155d6005210169e, 0x3944ed1365bd0e72, 0x92fca1f27c19c266, 0x10c6aec077d026bc),
    (0x0de1ba7a562a8f7a, 0xcae93263f5f1b4bb, 0xec0c0556c91af3db, 0x3ea5928c8caeae85),
    (0x05dbb4406024beab, 0xcfce5bf46ec7da38, 0x126f740bce8d637b, 0x6351dfa7da902563),
    (0x05d4149baac413be, 0xd4d8dc8ad778d32c, 0x00e789e3fcd72dcc, 0xc97e5427a368fd5e),
    (0x01cdf8b452d97c2b, 0x9be5046e7397e76f, 0xf0b6802fa941c787, 0x9212e22172c27b2e),
    (0x1fc6a71867027f56, 0xaf8085ff81adce33, 0xc4d7c5015eced8c7, 0x1b0a22279d46c07c),
    (0x1040bef4c642d034, 0x5d4d59a5a7a3a42b, 0xa9e185b75306d9c3, 0x568e0fda96aaafc2),
    (0x16b79c3a6bf316e0, 0xff2c91b289334a4d, 0x2b21e95676431918, 0xa8081475ab8fad0d),
    (0x20dff1bc30f6db6b, 0x434b3a1387e3c8c6, 0xa34070e52b601fc1, 0x3cbe1cdcd59f474e),
    (0x0212ac2ab7a6eaae, 0xc254955030a970f8, 0x062dd4171a726a8b, 0xdfb7fd8512ae060d),
    (0x2f29377491474442, 0x869a109c9215637c, 0xb02dc03134f00442, 0x13c8119f6996ae09),
    (0x0984ca6a5f9185d5, 0x25ec93c33fea6032, 0x73be9f3866aa284c, 0x5837d9f32d814bfa),
    (0x0d080a6b6b3b6070, 0x0d299bd6fa81220d, 0xe491361c8a6bd19c, 0xeb0ee9294b24f028),
    (0x0e65cd99e84b052f, 0x6789530638cb0ad8, 0x21acc85b6400264d, 0xce929ed7c85a4544),
    (0x2e208875bc7ac122, 0x4808f72c716cd05e, 0xe30e3d20380ff6a6, 0x55975da12736920b),
    (0x2989f3ae477c2fd3, 0x76a0b0ff3d7dfac1, 0xae2e3b894afd29f6, 0x4a60d1aa8592bad5),
    (0x11361ce544e94137, 0x9222d101e6fac0ce, 0x918106a463290a3e, 0x3a74c3cea7189459),
    (0x1e8d014b86cb5a7d, 0xa539e10c173f6a75, 0xd122a822b8fb366c, 0x34c8bd05a2061438),
    (0x173f65adec8deee2, 0x7ba812ad29558e23, 0xa0c2324167ef6c91, 0x212ee2c28ee98733),
    (0x01c36daaf9f01f1b, 0xafee8bd0c779ac3e, 0x5da5df7ad45499d0, 0x991bd695310eddd9),
    (0x1353acb08c05adb4, 0xaa9ab1c485bb85ff, 0xf277d1a3f2fc8994, 0x4a6f5741f381e562),
    (0x2e5abd2537207cad, 0x1860e71ea1188ee4, 0x009d33deb4f93aeb, 0x20f1c87a3b064d34),
    (0x191d5c5edaef42d3, 0xd02eedbb7ab85625, 0x13deb4eb34913a13, 0x421726ba8f69455c),
    (0x11d7f8d1f2692642, 0x82a263fea6d7599d, 0x82a04c74c127de9d, 0xee7939dd2dcd089e),
    (0x04218fde366829ed, 0x90f79ad5e6799797, 0x3445cb4cd6bc6f95, 0x1bad085286cac971),
    (0x0070772f7cf52453, 0x048397ca5f47a202, 0x027b73b489301c32, 0x27b71c730d76d6dd),
    (0x038a389baef5d9a7, 0xc865b065687a1d9b, 0x67681a98cd051634, 0xc1dc04dbe3d2b861),
    (0x09a5eefab8b36a80, 0xcda446b2b4b59ccd, 0x0f39d00966a50bea, 0xf19860789015a6e5),
    (0x01b588848b8b47c8, 0xb969c145109b4b58, 0x3d9ec99edfacb748, 0x9d16212c7584cd8c),
    (0x0b846e4a390e560f, 0x6e1af6dfc3341419, 0x545e5abfa323d817, 0xfed91e30d42954a6),
    (0x23a6679c7d9adb66, 0x0d43a02ddb900040, 0xeb1513bc394fc4f9, 0x85cabfe85ce72fe3),
    (0x2e0374a699197e34, 0x3e5caa35f1351e9f, 0x4c3402fb7c85eccc, 0xf72f31d6fe089254),
    (0x0752cd899e52dc4d, 0x7f7a08af4cde3ff6, 0x4b8cc0b1176bb9ec, 0x37d41913a7a27b48),
    (0x068f8813127299da, 0xc349a2b6d57397a5, 0x0275142b664b802c, 0x99e2873dd7ae55a7),
    (0x2ba70a102355d549, 0x677574167434b3f9, 0x86872d04a295b5b8, 0xb374330f2da202b5),
    (0x2c467af88748abf6, 0xa334d1df03b55213, 0x09f9099b825dd289, 0xb8609e70a0b50828),
    (0x05c5f20bef1bd827, 0x01009a2b448ae881, 0xe3a52c2d1a319572, 0x96d29e5763e8f497),
    (0x0dc6385fdc567be5, 0x842a381f6006e2c6, 0x0cd083a2c649d9f2, 0x3ac8c9fe61b73871),
    (0x142d3983f3dc7f7e, 0x19d49911b8670fa7, 0x0378d5b84150d25e, 0xd255baa8114b369c),
    (0x29a01efb2f6aa894, 0xfd7e6d98c96a0fa0, 0xf36f86a7a99aa35c, 0x00fa18c1b2df67bf),
    (0x0525ffee737d6051, 0x38c4a5066644ec63, 0x0ab9e8afc64555b7, 0xd2a1af04eb613a76),
    (0x1e807dca81d79581, 0xf076677ca0e82276, 0x7e164f614910264e, 0xf177cf4238301dc8),
    (0x0385fb3f89c74dc9, 0x93510816472474d3, 0x4c0223e0f733a52f, 0xdba56082dbd8757c),
    (0x037640dc1afc0143, 0xe1a6298e53cae59f, 0xcfabd7016fd6ef1a, 0xf558f337bab0ea01),
    (0x1341999a1ed86919, 0xf12a6c5260829eee, 0x5fd56cf031da8050, 0xb7e4c0de896074b4),
    (0x069eb075866b0af3, 0x56906d4bafb10ad7, 0x73afd642efdcc565, 0x7b244f65bed8ece7),
    (0x171c0b81e62136e3, 0x95b38e8e08b3e646, 0xd2726101d3afaa02, 0xea1909a619033696),
    (0x2c81814c9453f51c, 0xb6eb55c311753e84, 0xcbbdcb39bfe696f9, 0x5575107502acced8),
    (0x29d843c0415d35d9, 0xe3b33fadcf274b2a, 0xb04b39032adca92c, 0xe39b8a86a7c3a604),
    (0x085d6a1070f3513d, 0x8436bccdabb78750, 0xd8e15ea5947f2cda, 0xa7669cf3fae7728b),
    (0x11820363ed541daa, 0x10a44ba665bf302c, 0xdbf1dd4e6706b02c, 0x9e2a5cda412fc394),
    (0x201935a58f5c57fc, 0x02b60d61a83785bd, 0xdfd3150e05f1df5d, 0x105840b751a16317),
    (0x0a8c2820c56971aa, 0xe27a952abd33a03d, 0x46794eedd686cd8e, 0xcfed610e87c02e9a),
    (0x180638ff301a64ca, 0x04abd6d0bd7500b6, 0x650b65ff33e6be1f, 0xd50dbc163a281877),
    (0x095c716266f1de59, 0x044f97114a4158a3, 0xf85ca8a937cfbec6, 0x3e9b321a812dd36b),
    (0x17c31ea02fbc3783, 0x20d86ffed6c7ca15, 0x83b618c5c1a68781, 0x8d4087a497d73490),
    (0x05b86c4bb8ef318b, 0x6a7227e4192d149d, 0x3c17a9764ccd660d, 0xe4d50a77f192a91b),
    (0x265bc95df4a4c487, 0x6ff70d7ea2fde2c7, 0xab15f4a6ae0d237c, 0xd6ce74ba986c7a7b),
    (0x24752b47bc6c6bc8, 0xd9bbe48f5fef2f69, 0x08701739c5f5b4b3, 0xd6c886d4715c7929),
    (0x14814a1e0f492a4e, 0xa0d86e527a964821, 0x78d624b98da96ee5, 0xe583b9324d974efe),
    (0x10def931073b6479, 0xbd60577378f29381, 0x997c8e041d3cfb3d, 0xc7523bca906f00bd),
    (0x14f7ae770bf7e95f, 0x7f706c0d8ab4ed03, 0xfa0b880d28c69d03, 0x1b4592c98610175f),
    (0x1aef50a0cee751b5, 0x9f926af40e8035d1, 0x9decc9d428ebe4e7, 0x75c5cc9dce1ce589),
    (0x041935607172f68e, 0xba65ca60068dfe3b, 0x086c2a2d57d09602, 0x951214b57e73cf5a),
    (0x26863e9dd24255d1, 0x573bd083959b856c, 0x0493fbefe83c8198, 0x37a151d3bf452cb8),
    (0x2036efb6f9830965, 0xeb3d7a068bd087c9, 0xf5adf251ba62052c, 0x652738e63ff8b3af),
    (0x0c712a975b74dc9d, 0x766b639a029969ca, 0x30be4f75a753f854, 0xb00fa4f1b4f4ee9b),
    (0x08014dab3cd1667e, 0x27afc99bfac1e680, 0x7afdff6456492ca3, 0x375731d387539699),
    (0x198d07192db4fac2, 0xa82a4a79839d6a2b, 0x97c4dd4d37b4e8f3, 0xb53009f79b34e6a4),
    (0x29eb1de42a3ad381, 0xb23b4131426897a3, 0x2709b29d53bb946d, 0xfd15784d1f63e572),
];

/// The MDS matrix for BN254 and width 6, row after row.
pub const MDS_BN254_T_6: [Limbs; 36] = [
    (0x124666f80561ed59, 0x16f2f070b1bd248c, 0x6d53f44d273d956a, 0x0c87b917692a4d18),
    (0x11924f02fd19b092, 0x55aaa1cf46ea0518, 0xe3d7bfeef4742160, 0x9491011db0bd0b02),
    (0x247fa7f022304a19, 0x94ff505456c2201e, 0xf9b717369498d3ff, 0xce446601ed9df845),
    (0x03fd7b19ef2c861f, 0x22f77ff810f54e27, 0x7bc94eb76c02d79d, 0x986be3dcdf051c3f),
    (0x18bd41239c3e7157, 0x9a677443ecffbd55, 0x5a81eeeea69352a6, 0x8b67c8563c0c2a06),
    (0x2d78c3a5d28de9ff, 0x35bf0a257635196e, 0x5730ca7f40493277, 0x078cd75da8b4ebdc),
    (0x0a514a5c227f4cec, 0x95dfa029e8dd124c, 0x34895aa46bb27c09, 0x11f3780d5015540a),
    (0x192e16d17d956b25, 0x7b85a652eefdf2ee, 0x09589eac5be80915, 0x775723d2cb1da06d),
    (0x298ce0c1e3113bb9, 0x35c7058e7772b533, 0xb1aa9db0c0926bdc, 0x8917e5605ca3ac10),
    (0x094cb4e83621afd2, 0x71e41bc71727f015, 0x8ebd612239ac9d69, 0x8b17fe4be05b7fc8),
    (0x03d880395be93c27, 0xd649af5fd142e76b, 0x33918cb8841d5a28, 0x173bd5cf7d328791),
    (0x28eeae6b5866ad68, 0xe443bbaf91680db7, 0xd7e2b3037e38fef6, 0x1b42cbccffceca81),
    (0x278bb49a7b4e44ae, 0xa46eb0f882cb6928, 0x01a6e60fdd5b5c23, 0xc63cd65ccce4fe0a),
    (0x063edec1bed831f5, 0x06af8db648d6fdea, 0x145345887e8bdcff, 0x109035a1d9b674d7),
    (0x1baef1cb5509b526, 0xa42061fb53657f99, 0xb3232500e855192c, 0xbe8c940e068c475f),
    (0x1324564ac7bdf9e2, 0x2164e9858d7fa8e3, 0x68b165eaea3daf4e, 0xb67ee59c0df2e5d4),
    (0x005761b8c6aecb1a, 0x8ca4ea4dfc2c8376, 0x064a4a8004ceeda2, 0x10a55240562ddc13),
    (0x10c9e283159d58cb, 0x4cb2e35fde83a3ba, 0x1fdc28002ed9963d, 0x2a99f186178a148d),
    (0x0c399e9f67aa4070, 0x7a203feefb0b958b, 0xbdadcec5ca34901d, 0x253d026a2419f6a2),
    (0x083f0df3f1a0351d, 0x0330ec3ff602ca8c, 0xc353b7f6e762c710, 0x7184cd7b423449f6),
    (0x1a6764d5943fc4a7, 0x20b4c0a19fdb8c71, 0x1984307287a58b9b, 0x5f9f5d58212cb263),
    (0x011a63a26feabf87, 0xfa66bde66cc25a92, 0x2c96382d76c6a7ff, 0x48f1537beaed683a),
    (0x08ca7b64657c3548, 0xf32bef5b63ad2428, 0x8a41c0b251099ad2, 0x7f9434307e3e64d4),
    (0x01998270471e9361, 0x955446b0cdb8bea9, 0x15ec0675f1cd648d, 0xdcb04303507a4489),
    (0x1d6b3d5f6ea369c2, 0x6f825d2362933eaa, 0x31ea35ec0a77c1fb, 0xd9e01ca1523e4432),
    (0x119ef188bb3dd0d3, 0x2306976c19941e86, 0x64be687e7a69692d, 0xa27da215a6f06d40),
    (0x2d9e0ab5c06893df, 0xdfd03481381ba86b, 0x6e6292df5609d71f, 0x2c64b2d9a79f809e),
    (0x25f16631bf77060f, 0x7ea34087c025bf13, 0x5784319ef08cda2e, 0x31419ee0a529e658),
    (0x144c7a11da5a7c5d, 0xabae3f33fbd03cad, 0x86d18bc594c79a49, 0x7ecb9894edb554f1),
    (0x0f971162627723f3, 0xfeadacb28b0c104c, 0xb8f74de508752fa8, 0xd7c0db2af13de8ee),
    (0x24be510095436206, 0xdd0abd0b0cbb95c8, 0x83ab304aa52598b1, 0xa69306ec981a688d),
    (0x211610e2ad4a3774, 0x26fadf7068b0c1a6, 0xc299a164c1c1a603, 0xeaed944870d0b9b9),
    (0x15a67d981041b1f6, 0xf09f3f9ebefd864e, 0x779d3af08157786a, 0xc077505e50ec79fc),
    (0x049327fa79d28c12, 0xa2c82406947f77f0, 0x6775b0287468b313, 0x6877701dbe7c9598),
    (0x230940dcc5232658, 0xff9c29697a3fd416, 0xd170e8c998f1aa85, 0xdea0c42d79f951aa),
    (0x1b121c049cd1159e, 0x289007e0c9da9995, 0xcc4bab4c26fb888e, 0xc3972a8a2e656964),
];

/// The round constants for BN254 and width 6, round after round.
pub const RC_BN254_T_6: [Limbs; 408] = [
    (0x1448614598e00f98, 0xe7ae7dea45fbd83b, 0xd968653ef8390cde, 0x2e86b706ad40c651),
    (0x0ab7b291388e5c9e, 0x43c0dc1f591fb83e, 0xcdb65022e1b70af4, 0x3b8a7b40c1dff7c3),
    (0x2b7cbb217896f52c, 0x9a8c088e654af21e, 0x84cde754a3cef5b1, 0x5c4d5466612d6adf),
    (0x2bc6b0ddbe1d701b, 0x6570428bdc1ca1bf, 0x0da59ff3bbbb95fc, 0x2bc71c0c6e67a65c),
    (0x123a55a31980384f, 0x3d20b2cecbc44ed6, 0x0c38c11f7d20e927, 0x1efab9a905eefd3c),
    (0x037501cc8c9dc819, 0x309a769f4df098e5, 0x88b01858bc8eb7e2, 0x79e2883be9fb8c53),
    (0x1c2116e47e03a86b, 0xb11695b0a5f6dab6, 0xb9a460b1eb951ab0, 0x1c259eca3fd47d51),
    (0x2c18213489032e85, 0xa9c8cb8e9a65839b, 0xfaed13e57bc0fae4, 0x9dbdaebf54f56f93),
    (0x2ee8fed3d4d2c71a, 0x0429eafd8e5db171, 0x8f29e2227985fdf2, 0xad8703c835b9e031),
    (0x28c64d8f5ed7aac0, 0x04c92029d9e9bf91, 0xba9436d1cce94b93, 0x16d111c70a0c1714),
    (0x18a01d9ffb747ae0, 0xde3e83c707f8b24f, 0x682c84f15abf571b, 0x34254a03478665e0),
    (0x1c21d92bef197e73, 0xb234e4777b60db14, 0xe642a56cee71515d, 0x54e1ac71cde72bd3),
    (0x0ad404ccbcb1e195, 0x897cb60c80981ebb, 0x9d66a6677dbbedad, 0x8b6455fe62d807b1),
    (0x0a9b6de833064f93, 0xb6adb99af6c00594, 0x5cb654cb7bd14c8b, 0x97af8b60cc1fb387),
    (0x13129e3f930aed6d, 0x47690331ff09dc51, 0x60efa58ddce2c3e6, 0x180d45bec3aa3a6f),
    (0x0d7a614c8991508a, 0xb1ce4895813bb1c8, 0x2f18bf7bfc9e280c, 0xcca18079839387f1),
    (0x0532f7ec36e30041, 0xb0486986875c913a, 0x49bddf2f5af5febe, 0x8c31f2f4094ffea5),
    (0x06bbcb8e8e180201, 0x293e712f4950f1b0, 0xbbee808c9d64263c, 0x84d9d8ae155cb892),
    (0x0f558a4db1a3ac07, 0xf61e2e6bee947f73, 0x586bf40f211ceb4f, 0x687ca5678a9dcb33),
    (0x2be140a60b5b5f2f, 0x8edd78a818a969b2, 0x0c643e419bcf0b57, 0x7c24a0d0e7acfe98),
    (0x1c49c4b9a9f09f7b, 0x9ad5f74ebacc7105, 0x12b8e867bace27cb, 0x0dea06e89b96f631),
    (0x170c1a732721b12c, 0xde7f33e476a39a1a, 0xa77a81c06e2eac50, 0x3847b00d597652db),
    (0x19c27d0e52f65ca3, 0x4f4e31a068e49331, 0xc6bfc39d9241f9d4, 0xc302041615cf27f1),
    (0x2f1bdc5254f9220c, 0x1a731fc5276964da, 0xb26b385fa40b6b04, 0xbed9960e2543ba08),
    (0x05b42d2fbccbf4d3, 0x9d2be9339cabe9d0, 0xdc6d921e855cd911, 0x54b639d28d4a1cf0),
    (0x1220040715a41ad5, 0x9f4f410e0c05a42c, 0x5fd32ac52fe9d06f, 0x88188d71f61e0935),
    (0x25f9526526155b83, 0x946609f7bb9507dd, 0x4925ef871dee916d, 0x9144ebb4ece1343c),
    (0x017bfe4284299ae7, 0x740b6d0e204951e3, 0x14a8a5d045241914, 0x7978a95b34742444),
    (0x2a5d4764021ca71d, 0x78a9674cb6708f15, 0x88d2ceaf3578c411, 0x1cf8b359eef089cf),
    (0x17f02dab745fbe3c, 0x081321fe5cef845e, 0x7b8d070b2514d29b, 0x2a7b7d89cc0815da),
    (0x19da62626db7199b, 0x65f4adcf57fa4a3d, 0xbaa1764a7bd15570, 0x8ee6f378c89ef013),
    (0x0f88e295fa2ed81b, 0x426c91fa69366a73, 0xedf75f39bf18634c, 0xd266ec4038829e05),
    (0x1fe31c5548546c79, 0x48fe4ee1bd7412e3, 0x280eff7d20cb09aa, 0x85f49f2766148017),
    (0x10fdc1613bdbf67f, 0x38bdde561b2f91e4, 0xcc48b59f98d64363, 0x8fdc0afadbfe126e),
    (0x1f2618c2ebe95745, 0x08b9c52f0000e33e, 0xbfddad1a03fdd6bc, 0xa6ef7f0093127bef),
    (0x129fe7fc3efac6a8, 0xab23dba6d886f394, 0xda11f5953cf98e28, 0x269a0dba2a745dd3),
    (0x15afd4cdf1e4f820, 0xc1631d4ab85ca4ba, 0x3bafcfee72beade9, 0xfae60523102448e3),
    (0x1f2c74ba5c367e37, 0x0d728e71e15b2688, 0x51a7bb8b45528cb7, 0x34956079ac99b012),
    (0x1130e1872d76f2f9, 0x369cf59b95edf9ce, 0x19f01fa89c9c36b2, 0x6e09def6786dad3c),
    (0x13523d173f7e6bad, 0xb73b63fc1c9bbdbe, 0xe242c61bc6865649, 0x3327533a5c1b1dca),
    (0x14da40d0af427a65, 0xf1841b5adc965386, 0x53368f7254cb5667, 0xddadbbad7a574cd4),
    (0x0091f96400e4297e, 0xa85bb186c17b304e, 0x82638e57fd631ff6, 0x315976e1a5dd8b86),
    (0x303329bf9031c551, 0x5b9a34d49a64bb6a, 0x0267bc7b54a0deca, 0x5c450277a002cdcb),
    (0x14ed47e55c1da1c2, 0xf05d3c1a1b2e6c18, 0x509fc8336ecfe9db, 0x737916e283fa821b),
    (0x1161f10b357775d8, 0x10ad53bcc4a20d5a, 0xdd2b03251c747deb, 0x04ee94c565e58d6b),
    (0x17a8a50ae72ce707, 0xf22bc070eb992851, 0xca914eb94cc68eaf, 0xbb8a96a714eb8221),
    (0x1a6c61d795dbaf62, 0xf99250b37ec5df88, 0x645a1c153791db63, 0x12b932dc250e4f62),
    (0x1f8bd2ab8aa84066, 0x4c4eee198c4684dc, 0x4b05772bb2a0869d, 0xa6722b15f447a133),
    (0x1ffcb852a4f0027a, 0x9799f131cd74b98c, 0xcfb8cbc06349d8fe, 0xfcc62f10c8fb3e2f),
    (0x035e742ec52f19b3, 0x6d489c720f467ffa, 0xd77cd53bc2db5ddd, 0xb246b23021f79f18),
    (0x1dfaaee41bdf94d7, 0x83aa29fc62b7ec7b, 0x55673aa818d305fd, 0x42d175a05f2e3d86),
    (0x2821378477a02e99, 0x5005a56350885409, 0x45bd333f2d1455f0, 0x38a219b8c4796b3a),
    (0x1db4a4d0f238a570, 0xb1061c6eec81c02f, 0x31ffdd4a7c19e763, 0x174f238d04897421),
    (0x14bf7889457b20b7, 0xa1367b34a3a53821, 0x7d693b52426aff40, 0xa4bb72893b1784ca),
    (0x2ced52c2bf296f87, 0xe57410c3ec9a9483, 0xa796d164f6049127, 0x109ff0d3a9c08465),
    (0x1ddeac5805a7f4ad, 0xa4d0441ed108e314, 0x9d4ce6584f49ae5b, 0xdfd46d6766eea334),
    (0x2e36b4e5e9c97b46, 0x2304e8e2b5f9dc88, 0xe1c9f2161ba04067, 0x3f911123f042ae70),
    (0x0c6840d1cb0666dc, 0x59e89b1865275d8a, 0x164b447c5ed64347, 0xcaee63502c238d5e),
    (0x137e2e3e89e71d46, 0x1f4c9bc3e8f12183, 0x262a4d1db55c589b, 0x2caeaac01238f58c),
    (0x250932e7b0adcf2c, 0x84ed4bfb60a36b6b, 0x82e55aa94751157b, 0x1d45794b081c8aad),
    (0x170a7292f5634c06, 0xdd3bf09ab5c9c4ec, 0xd4b00d5ce2f35f97, 0x2b4555391f16b42d),
    (0x0d68cbbe77289e78, 0xd5cbf51d70f1b75b, 0xa215df4e7bd0149d, 0x10b2c50f2a4f3b81),
    (0x0caf74563b90525f, 0x645a6d2036ecd130, 0x6fa1dc680b49d9ce, 0x4ed24c9749973178),
    (0x20a7d1c0a27fcce7, 0x8ffe372f4c58306b, 0x166f9456ed46cdeb, 0x255e395b7d30d42a),
    (0x0623f3226b5470b2, 0x789b8a53040e4444, 0x3385e96b9cfa0be4, 0xd35015158a468465),
    (0x1632308688c25e79, 0x0f57d68a53502412, 0x42a56305347de4a5, 0x009ce46b8cdcb91f),
    (0x2de4793a6f99cd14, 0xe3f6642211f4d0b7, 0xbcfa361597c544ff, 0xcb5a567e9076f47f),
    (0x1d4d06d19ea1b09c, 0xad79086d51bde117, 0x25a554fa99559ca2, 0xf09f3bb73d728c66),
    (0x0480e7479a66a7cd, 0x9ea61c8b28974389, 0x908350abc4aafc18, 0xcd75e33dd130c144),
    (0x30430b03368ebcaa, 0x91246960490bcf91, 0x7d78681463e2e7d7, 0x44bfb44335dac24d),
    (0x0b57b37320127d4c, 0x50f269124b0dbdcb, 0x2b1f1352241a5d12, 0x103283e089c0c742),
    (0x2cf4890650d27240, 0xe195f60a4f698eda, 0x249b8dd614b23376, 0xb50178d2df6d2b8f),
    (0x1e221c5526898bfd, 0x12de86851a0d9703, 0x751a2f239008ab5f, 0x9b7d3b6911c64184),
    (0x28e07485ad7d992e, 0xd1a58f329ca12adc, 0xe4ec693ebddbb295, 0x2e54d339f2eebda5),
    (0x2f44d64f84de16dc, 0x67bd5ead51efb1dc, 0x8381c84520c12854, 0xdd5ef3a079acd4e0),
    (0x050a76bc32ebd1df, 0xe2be330f304edc7a, 0xce7167ab7ba1516f, 0x4021c62cf0d4fac2),
    (0x2f58c45e5d659a67, 0xd781367241f6c35d, 0x8cb46361d97b2894, 0x7d29421c270594a9),
    (0x25e8da9ae0e42e84, 0x0e04b230370e782b, 0xdb67534844325ba3, 0x6fc7e5e160c66a74),
    (0x2fec734da20fe320, 0x03ea04f127f84472, 0x4f38a368ba10c295, 0x44252be796040f7f),
    (0x288a6778f3a83988, 0xa8ed1727f15e93b4, 0xcb14f4e3a3bbb91d, 0xd6d1facafffd5eef),
    (0x20dcc6c75fd89259, 0xbe7f406750b3db67, 0x9a25a8cd2715d245, 0xb9175390ac922c84),
    (0x17f42ba10942df25, 0xcb8a541782a18b6f, 0xd31cf965d11178c7, 0xb04ac45b4dea5dd3),
    (0x028eeb85d115a904, 0x020e0c6148eec660, 0x3e9cedabc664abee, 0x764aafd455986ba5),
    (0x0b1d7cecf3a79b2a, 0xd3fa298f6cea7ae9, 0x5d80c0299ecc918e, 0x9f8c9c3d38d59d40),
    (0x0440339c9764cec7, 0x9c16efdb834a2626, 0x1db8e3f12ce1cf72, 0x2d23c0e11ff4cf07),
    (0x06ca647c29727c19, 0x62a002177da2d504, 0xf4b07a5f7eb57c79, 0xb88e6b7abbbdad5c),
    (0x2ea120a864f5c409, 0x3dd1a962e8f013c7, 0xb8ef778b04d2ba5b, 0xfc3cab28619ba9e3),
    (0x2bb737546c4aee7c, 0x0cc2ba87c1157e2a, 0x77c479ebfb5dc76a, 0xdbb39cf8697633fd),
    (0x0e30da6490625d33, 0xe79cd50176f568f9, 0xa2c28c2f449a2bd5, 0x1a25d15686803a93),
    (0x0df7ca7278a13650, 0xb919d85497b2ebb0, 0xf71035a7c20430d4, 0x131d903ab7f57521),
    (0x27cc589f5bf58579, 0x4abace589fb8a74a, 0x2f784c0990b80fca, 0xa6944097f870e2d5),
    (0x2255c36a38c8735d, 0xe45cedf452afa842, 0x332d33042f78e60c, 0x43c7455421b325bf),
    (0x133d9602bd3378d6, 0x9f681c27b05bdffc, 0x98b7d86cca63d73a, 0x60caed485784d087),
    (0x0e1548e942ae9d3e, 0x26860699b93727c8, 0x17a9948616c93ef4, 0xaccd981b1dc3d78a),
    (0x0f20f0e55d93689f, 0xe09ec312f6af4762, 0x7482e4bde0a1602a, 0x8e2c8d6e84e8a6ae),
    (0x2e52328483cb5b7f, 0xf2eb4e45b12e51b2, 0x6232c9bc17b72929, 0x54c0a9f6bfa51bb9),
    (0x02b2162d533e059a, 0x6eda2abb74712edb, 0x3a7860beea95dd8a, 0x4abfc957660804f4),
    (0x19e0927715d1cc6d, 0x389429947fb3737d, 0xad733974c6b2e13e, 0x5b3d432519516c74),
    (0x0d3a800457d77785, 0x636303b8b94f17dc, 0xffcb46048872ac9f, 0x74ef7f27ee573705),
    (0x2c974d1952557a1a, 0xac5f7bae4996616d, 0xa619b73f441c4e50, 0x4dc8fe9cfb559e32),
    (0x0766bfeeede2ccf3, 0x708e1b4ff30714c2, 0x2c1d434cdbe8f555, 0x14babc2dd5d97bef),
    (0x23dac8ea54082fc1, 0x31e173ae55e4630c, 0xd4ca7c871b2a0a47, 0x9c1e74e7f191e62c),
    (0x17d5fb6c2cb37010, 0xe3e358ab2d575376, 0x870ed33186b8eae4, 0x9ad3b47e340a8d7f),
    (0x175dcac76d8a8126, 0x139b583ae3885329, 0x0246e43e783fa690, 0x3ec8007f178c0023),
    (0x0c4fd08fede5d221, 0xadb7abf549898c91, 0xe5be7e85bf1fd2a6, 0x11bf182cc2e71655),
    (0x277934b909e72d3a, 0x3475bb1ec766ab7a, 0x38ad59b128303fc5, 0x002f02a65bdfe729),
    (0x0e88349998dfe703, 0xf1b184524f9c394d, 0x6004ccacf9cb9528, 0x96e8cfdb0b078b68),
    (0x1f1b2078b60b0fce, 0x07824e2a2bc8cae8, 0xee673514b0070a8b, 0x45710cc78cbb9942),
    (0x2eb1559566c536dd, 0xbc316f6482d51fa3, 0x40557657700f5b8a, 0x846e812a0ed334d1),
    (0x1c4dbdc335cf6764, 0x355208b4c9d243d3, 0x4541d623c669dec2, 0xc3ba066bbeaf6773),
    (0x2374a6b2da6f8cab, 0x8e5cfe8d805dd3a2, 0xdfca1e8b7eba5dc8, 0x574021fd1241e3b4),
    (0x19dd342533ccc603, 0xa99738e3fb5a569b, 0x94ef71b3e49f90fb, 0x874f6161733072f4),
    (0x217d66db6c7fb3ef, 0xfa508800587d2eb3, 0xc6d03d8385132f2f, 0xcce7f35f2705cccf),
    (0x0815fb8591fe0103, 0x8cd3a3b38b236f9e, 0xfca77c618d3bfc6c, 0x2a7fa89296c7e64f),
    (0x2bb943b40c2bd456, 0xa6c17853b1ca88eb, 0x0ff36f5974b2ff9a, 0x5f5093e9bf63a16f),
    (0x11a5153fce659513, 0xee7cb9974ae6cba5, 0x81e3b4cd14570c57, 0x09fec3d8d3fc82e9),
    (0x1b72bfd07635d850, 0x1b2eff8785a2495b, 0xae74c7653cf90e6d, 0x5c9f144426836df4),
    (0x14902c0700eec897, 0xae178ba8caf850d7, 0x93f1d87512bea0ec, 0xea39cf6b1fee233d),
    (0x09c138c6e0a616a4, 0x9ff90d43a6b043f3, 0xb745b78865856dc4, 0xc1a45e2fd84cb3f4),
    (0x05b58a3dce57b281, 0xa271d69895052d88, 0x7458a715783e8317, 0xe024a61a35ec10bc),
    (0x2be8d29525c0cfdd, 0x5e6b3125e3bde3bf, 0x558e55fbe867f024, 0x457a96765474d037),
    (0x061d72f78f1ba9dc, 0x6b4d7f7784225d6a, 0x81bdfc1b5ad6c243, 0x69f9c0560523d9ad),
    (0x0bf18aefcacffabd, 0xf4112eddadca6145, 0x738b4803b36145bb, 0x9516db501a0692e9),
    (0x2e73dd105fa8b2ec, 0x931d8cdf29ec679e, 0x3a9801a93071a7d5, 0xea30659255f03bc6),
    (0x0f8440ef667c9ae8, 0x1337ba5d8c927a53, 0x47de7296860b211c, 0xad1ecbfb5d3598ef),
    (0x004d303b2dea627b, 0x2731be83f93ac34e, 0x7d14d178a1380055, 0x8ca7396395eb118f),
    (0x234541ad72040a70, 0xda2996a35269230c, 0x94699eef313a4d48, 0x0508008cbc3d37c1),
    (0x0d123f1e72d26b92, 0xbdd8fd73d14286c3, 0x12ad4c23acb46b2e, 0x08c157104409e174),
    (0x2fb360776f0de79d, 0x7098ee7aa4123c05, 0xee6b05a8be460a77, 0x4f3a048e138545bb),
    (0x03685c079434e167, 0x276c57d3cc79703b, 0x7dfdc41c156ea1e8, 0xb7f99b6956a55326),
    (0x260af0e0fffcc977, 0x2c1631b179344566, 0xb47aaada3681eb90, 0x34c6f75c3705c1c7),
    (0x2862b41374f89b69, 0x5274b33b773f2554, 0x916e2bff9ff67254, 0x5fc2f49563f62767),
    (0x02a9912fe1703102, 0x27189ea1e691d036, 0x2f18b38b400b0eff, 0x192ca59513eba8d5),
    (0x08e513ade694a0d8, 0xac1f3ebf1a96440d, 0x32c713d5058e1224, 0xe070348c281f4a6f),
    (0x140a4a431e2ee794, 0x00ed7465978d8477, 0x3213c628264ff80f, 0x21ac7a6b673d09ab),
    (0x296af4d019cb5df7, 0xd959b29d549c3f07, 0x1202b4eba8b53dc5, 0xee979ed143377927),
    (0x01832e284a7f4c81, 0x614882b6939fc0f1, 0x85573bd2023e3e50, 0x5765470bb812b349),
    (0x1a84d56a67bfdd3d, 0x965abdcd329aa78d, 0x4fe93434496f2d10, 0x3861fd19d66d7260),
    (0x040cb82847773927, 0xd2aefdc07489037a, 0x9d1f7631eca75c9f, 0xb0dda0cb9dbde143),
    (0x010dcf084cc29cb7, 0xcaecf26aa633bce4, 0xed2b019f2887cee7, 0xb1a78f89d3fabe2f),
    (0x07edc22a0911ea21, 0x4425ef542b776db2, 0x3b0fe5817810d40c, 0x72ca98aabd9afa83),
    (0x2eea4ab08aec775f, 0x2148479ea36fbb96, 0x936da58ba48bd1d2, 0xd3acd48173aaabe7),
    (0x1e40c0e8257fe4a6, 0x1005cdcfad148cf7, 0xf47d1b5cfddfaa08, 0x2738695518245f19),
    (0x23a27809583bd1ea, 0x51f436de5443e108, 0xf69d44cdf51dc1f0, 0x3e21948b4980b876),
    (0x2e4652b044dbfe40, 0xe63b6b232fcd5f3f, 0x39abfbd2051ee68a, 0xdc754080d49250a9),
    (0x11e7abdb6ecbafc2, 0xe7d8cdefe9c7b9c5, 0x0475eb475db3c2ca, 0xf7f7d67f485775f2),
    (0x199d52350cc30e8c, 0x73821f802096f0e5, 0x47a13551b27bf6b8, 0x99396f63ac5cf8e7),
    (0x0f575d6ee67cbecd, 0x98345624e032a37c, 0x859a7cbef30b3fdd, 0xc949cd0978484101),
    (0x1c4b6f9a2ae2b418, 0xe6265acba9c96b06, 0x184d07028e5fb784, 0xf3475ae7772ff057),
    (0x2dcb5cf8896de39f, 0x228e157c0c5593f4, 0x626fb9bc22520638, 0x3db20360abf0c925),
    (0x1340abb9f4e11318, 0x6bdc26cbdf4bcca5, 0x0b531a107f863ca5, 0x44575e3cf870f8e1),
    (0x2368e692b72787cb, 0x8870ea888e714e00, 0x6f59d2b4460cfb74, 0xc48a8cc73b1d1a5b),
    (0x1fab9add9baa4a4f, 0x56f23165775c6f2d, 0x922a7632a94f9637, 0x4b7dc852756f54b6),
    (0x0c7f7b82300d3c6c, 0xe3f8957ba1e4add5, 0x4c4c015e20d9765d, 0x220571c16ab8680f),
    (0x15d63e86beacd93c, 0x6083688e5d9c8f3c, 0x6947929f9f1f99ab, 0x578a4c3a922eff03),
    (0x0be843ae5f9b07e5, 0x2572178af7dae8ed, 0x05d36b12c0607862, 0x929355ea74023d9e),
    (0x1332749c523694cb, 0x6935e0963a07e81b, 0x05967ce1d950c0b7, 0x31058ec92a7a0c9a),
    (0x25439408810e074c, 0x0bdd4598b9815fee, 0x892bb95ca51029ec, 0xf009bffa5b9b9682),
    (0x057e8d19dd999a91, 0x8da29b0940b383ba, 0x9fd15db0b0f64996, 0xdff67feb55f9a742),
    (0x1e014e37e9b117cf, 0x3b4870d999f2b55d, 0x3534d0a6be98e9e3, 0x57fa43f01e70a29d),
    (0x1a4ed24e6e03aebc, 0xd6bdb100533dc966, 0x597afe15c851b4b8, 0x63f6e889084c6479),
    (0x253420007083f1aa, 0x863ad4760905c103, 0x9ed4111c9f053f27, 0x710452f83ce36a90),
    (0x2276a1441971709a, 0xffe6d2a99320001e, 0xc45ec72155c575dd, 0xeecac0e32759ab06),
    (0x28957dd1218ea799, 0xfd3411eb19325853, 0xadf7ae8ae1281f75, 0x3302fe7d31dfa7b0),
    (0x2fd925726ab794c8, 0x8bd75796aa3e7f1e, 0x6692f2914cf80226, 0x7ddf01e37902a008),
    (0x1cf8a5c9c76a84b1, 0x47c8238d9253cd55, 0xb47c0c43d82966c4, 0x636a28674705fd9a),
    (0x0373cbbc306e1bab, 0x9e7077368715e623, 0x0b4b2e2e4a1db9c6, 0x74b8c359a41e9108),
    (0x060283d2fe7f23df, 0xf513d9110b3dc624, 0x48bc48f531ce0c1e, 0xab5920bf23290a40),
    (0x0dab465d6d910740, 0xf33ef6cc0eadc71b, 0xf8119bdfd5a3527d, 0xc8bbfadfaa40263c),
    (0x0cba7bcbc8224b2a, 0x8e4aba17977230a6, 0x86cd6421dc0ca534, 0x6f3446b62439c4c3),
    (0x1e4365db0790c9c4, 0xf445b0653c466ff2, 0x1db96c38b4076ba8, 0xbd68bcb4dea6911d),
    (0x1bb2dba2199a9ab3, 0xbc86ef5f9de7f6c5, 0xca13d60eab42ced6, 0x8de98fc643800a8d),
    (0x0ad3c1870c6d6ef4, 0x0eebad52123cd1a2, 0x913d9d62e80bfbac, 0xae812e082021f9ca),
    (0x01b098c91e7b0cbb, 0x5c34588077c0ddf9, 0x5300ddf614935630, 0xc0ce3a2627245308),
    (0x19fd5c0eac14fae7, 0x598bd4ceea3b1e29, 0x98b0c168493b6d72, 0xae41b576e55b9c3f),
    (0x0d4749d79cc163f1, 0x7110a404a46fe427, 0xc6434f3fe67b7e7b, 0x4ccfa6ab95bd7e18),
    (0x1ebbfe8114a41bb8, 0x09e0b33399241232, 0xeb940ad8728c8a51, 0x6d40ada440dbfdcf),
    (0x2704e5b6133d9764, 0xd6d3f17d49d83322, 0x3e3937f80eb9faea, 0xbbfba9baf4b4c1b8),
    (0x2165e1c8027305b1, 0xae0e323571635e5d, 0x540d13d710c3f9a3, 0x90b6913f14d035e3),
    (0x2e3497e4d35fda59, 0x6c06afa63bc3a0f2, 0xe55d4eeba4aceb60, 0xe65081ad63aa8b8a),
    (0x031da4345eecd6db, 0x6c0f7b07c7815d7a, 0xdd1fe0546d738f4d, 0x79ab5c57aa841edf),
    (0x089ece54e47aa5c9, 0x08e43e5f08737c14, 0x36967089006acab1, 0xc9cd19eac4a20876),
    (0x2f53c15e2aded33c, 0x47f55a070483e6cc, 0x7f3821fbf8aa4067, 0x7d0552ed9d10d847),
    (0x142aa34f4b2e8ad0, 0xdf7a21b3e39c00c8, 0xb0aa2857094801ea, 0xafd72befed077f93),
    (0x17aea4da4c7bcf0d, 0x7588b014eb8b4097, 0x9dd2725eda4e6ace, 0x331982467c7ff2bf),
    (0x0e970c19d19748d8, 0xc465104d8f022003, 0x63f9a41786f02f18, 0x27742b20dc0d1727),
    (0x04bcad9e55379564, 0x2f59baf714a6bdb4, 0x32fc45a0a0b77f1a, 0xba3a9823476df9b9),
    (0x242c0bfbcdaa76f7, 0x15dbd4ba825c71fc, 0xfed671c1b1901fa4, 0x84c87f810315d0ce),
    (0x25db1343c2410407, 0x1023fb6ed34d9909, 0x078311e1efe85af0, 0xa11b19114fa9e790),
    (0x2ffe4d9c420a59e9, 0xcdc7c31ab2bf3518, 0x7ca147cb898a3942, 0xdeb3677786036a80),
    (0x125bb03af3e2cf18, 0xbbe6f5b590eb3bf8, 0xd0d1ba63be696483, 0xe98f283bc7cd07a3),
    (0x0816be42745b7dbb, 0x4ceffe5b8e24ea60, 0xfd8b719deba50037, 0xac7b75948745c6bc),
    (0x111160f9acf6ec36, 0x0d1b6a712313a0db, 0xcbe23e6442005547, 0x1d2ee4c5dedb35d4),
    (0x1377978e1b1f6a89, 0x25fa8e7b7941bdf8, 0xfb59ab9542342419, 0x283d8203435c9391),
    (0x0defc1d8882166ef, 0x3ccde53a4f236fba, 0x83d384621937cee5, 0x7e421a513d0d3397),
    (0x2f8fa5c78c706e3a, 0x5d4a03f2a7a39530, 0x46d7e94cb88a7ef3, 0x50e67b5ba0f0debf),
    (0x1a2a957ec0a723da, 0x61c2134bab0bf17b, 0xeb00e6dcd84690c2, 0x30dcb9e58da94827),
    (0x1cdf8710995f5e03, 0x412b4a7f699532f9, 0xfd01f0ea167a8dfc, 0x1ddf37e2805addef),
    (0x26fd31471828c36a, 0xe36c27b748054b0c, 0x0c4fe5239b301699, 0xe3765eebecc18946),
    (0x0775d996cc2c4456, 0xf303a2c1f9007647, 0xe11a921d9fea3f7b, 0x926143b99d2fa0be),
    (0x016fb9337708ca63, 0x8cdfda91bd0daea6, 0xb97224ef7b206267, 0x2addd1bd18bb8900),
    (0x2c392fbe7d3fde42, 0xfca4f9478bb43933, 0x1258255356f184af, 0x6f76f119054117d7),
    (0x187a2a3bf79a69fa, 0x3e5089ef9f1fd56f, 0xdb47c55eece77aa2, 0x28aa3de1b486bcb1),
    (0x0271a863a280a326, 0x41ffa33510b2edd2, 0x78c98630359532f3, 0xe506b275fd5d20ce),
    (0x1557459c9c74c94a, 0xa00e5af69a1e3112, 0xfb69537ce897ec0c, 0x718958d96516f2ab),
    (0x2a8e26ca8d647d9a, 0x6388516ea9dcff89, 0x083d539e58168c2a, 0x50c6dae30f109f21),
    (0x21cb752194cf43f3, 0xb51942eb0040eba9, 0xde2bcfb1c2a3fae9, 0x7924b710f26832cd),
    (0x2c26daf996be247a, 0xcd6dd4acad60d38b, 0x5a471e6322188d02, 0xc137e7cb484377ec),
    (0x0240176ee0e7982e, 0xebe92a68d3e3a38c, 0x26821acc0f5d058c, 0xf8c137bca2d26f1b),
    (0x2636e0973c865c1b, 0xd974dd78daaa8d0a, 0x84cdaf6be1ad47ec, 0xf2a0d18f117318f2),
    (0x19e84f4f25a79949, 0x6041661dc5d975b6, 0x81f6e06744cee89b, 0x7be5d9fde1744ac0),
    (0x0ebf89064a3af247, 0xca1f36f6f3570188, 0xe271e0b326c4fb26, 0x664e89e1454ca110),
    (0x25c7e97b475be00e, 0x8b559a38c452364f, 0x4c9c531fecb8ac69, 0x8f7fd73ce22e71ec),
    (0x0444c99e592353e5, 0xaecaa302add901c1, 0x4d8c55270a160afe, 0xd4429ef5598ad74f),
    (0x138db8887830565f, 0x2693d0e0f02e4e79, 0xe144967f0ba53b03, 0x519aba764b5c994a),
    (0x24d40f462114fe9e, 0xe02aafcf74b4fca2, 0x4e1ae365dc75c3b5, 0x2bb13cbbb2f21edd),
    (0x21e65d6d8ee43760, 0xbca40e730b5df4c4, 0xcf3a8a732db148f4, 0xb2951b4c61d68e8c),
    (0x248dd79669ec09db, 0xf0350a15d6c75c6a, 0x9bdaacefca14d513, 0x00978f13d1ab6d1c),
    (0x2b8238c1548f9cbe, 0x29fd35cf91e7b48f, 0x0ebda7e639edf69f, 0xe8d5aba7924d5362),
    (0x2439fd239257f381, 0x81c7be3cf513f1bf, 0x7235eba94f6b8942, 0xa94cbddecf6f62f7),
    (0x200958235281a61b, 0xa2c4be0aa3282a18, 0xc74b6d262f5de7c2, 0xe33d2bb3e893dfec),
    (0x0e1eca5df88ee5f6, 0x0cfa7e1fe5befbb7, 0x19fad8211fa9b2d0, 0x2fcc233190c17f12),
    (0x26b53427f9b3ea2c, 0x769d9c660fc60881, 0xa169c12732d001b7, 0x158ee4b1b842ca24),
    (0x20f3b3f4acafe9f8, 0xaf3e06661b3a8f77, 0x8fa2812522b9d70a, 0x67402cff8db2b1b4),
    (0x211e5d2b39d62520, 0xa7a627ece8cacbac, 0x9f97506def4ec286, 0x928ba6c27d463b17),
    (0x0bb743ee34802129, 0xc556731aed9d302d, 0xcd085313ce572f62, 0x42d13832e536b4b4),
    (0x23cb2661b488ee71, 0xe4c753ff23ae4bd2, 0x5d8a44094f66b653, 0x2977e22140eba5cb),
    (0x03a35aa3123911cd, 0xb4535baed3359f5f, 0x6a5205b9c93ef31d, 0x35323a47807b8bc9),
    (0x27803848a0aed96a, 0x93fa943b6635e450, 0x217e137f4ade74a6, 0x2d7917322714b697),
    (0x0cb37839c2c9a7ff, 0x79884cbec75f41e9, 0xbe5e47c76d615382, 0x31bd8162996d6f67),
    (0x1f0026d0bf1f8e1d, 0xd5423cc2fec1fb5c, 0xdaa1ecdc4c3cb218, 0xdbceef77c00d2f93),
    (0x02a7d7bb970b8a6e, 0xd2ee66fabbba956b, 0x6da3b100f5b5fb92, 0x8eef42f9708273c9),
    (0x0cfd7f4215e434c8, 0xda17ec3258b0bc60, 0x5ad1ab2e90aa4943, 0x51e4ee40bbc491fa),
    (0x180b11b720622a15, 0x6849dc6f7f6e7f57, 0x1659be69682230c5, 0xed9ac339700a7cde),
    (0x04e96a965bce3d3a, 0x0a24a4a457c95158, 0x2c871349ce7eee1a, 0xabfe578a94c65011),
    (0x15931f782b45f7fb, 0x656f2cdbd1f7705c, 0x353a23fe1d30a5a4, 0x6a1522ed160df3ad),
    (0x2e296e57c97a5309, 0xacd26febf55ac963, 0xa5444c1c5f703ad8, 0x8a0d7b97b9dd38b1),
    (0x26157bceb78e846b, 0xbb262f9a1e06d427, 0x1bde5a5bce8f0419, 0x952f97ffd13eaca8),
    (0x2194eb89847d6b0f, 0x1897f675f19c0c56, 0xb61b13248eff3ca3, 0x6e34fb9d1c79ee43),
    (0x2350bf3547765689, 0x9151ad7dde96ea78, 0x57e15501447008da, 0xb6b3d27c8ffa274f),
    (0x1a486f0ae591cacd, 0xaf09c58a49c4d179, 0x5405435340819e00, 0x3f0469d110b7752b),
    (0x1b56dcf76fb23cc4, 0xa834d455a4065e13, 0x3571402b7df309d5, 0x9bc3105d42a8c301),
    (0x1a749d7964af0b72, 0x02913ef204c653f2, 0xb4bfb65ceab7b685, 0x233ab59ce3bb6925),
    (0x18ae590073f96969, 0x6af762ffa4e8f0eb, 0xbf97f8cc787e37cd, 0xdd1f321be3beadbb),
    (0x21c47b275d82dde6, 0x460d5e769a994211, 0x44b1c5a9da59294a, 0xde9cbb317103f249),
    (0x0473ddbd52e737e5, 0x27364e8eb6320797, 0x5c38d5fd6cc32b27, 0x2102b082cd1518fb),
    (0x0b12fac95b6d3a88, 0x1d892657c8424e64, 0x5ac4e6b00515f902, 0xd594574302b26e02),
    (0x08ae7616a260cf66, 0x57f8f73ac284588d, 0x2c5f07ff425d837a, 0xa7cdcef63e3e2103),
    (0x039daf6876280b80, 0xe873bf2a32fd2834, 0xa83c69757badd58a, 0x888ef819e926ce28),
    (0x25e7b1d7470a3c75, 0xf13f0b56546c8e09, 0xf2d8efeff06ef766, 0xf9c783ca869d130d),
    (0x1e8fd3634c3ff764, 0x184d03435f98584b, 0x11b5b15aeb9c7526, 0x2da3f1ea2c2a9e7a),
    (0x241dcc51ac37808a, 0x415dd1e3c281f05a, 0xff11789dc0cafdd7, 0x7a35484e0993f9a4),
    (0x1ffc3153c56ef975, 0x5932cea2be057374, 0x9bdafe1c4fa0781a, 0x4b8b4078ce9d7547),
    (0x17630d62d9a3e510, 0xc88a4d43c360f92b, 0xc0fa00b66031adec, 0x29bd9543fd3a17ee),
    (0x2980400edd1d74e3, 0xd69db5458d2ccd5f, 0xabdb236ec16a82a4, 0x301a0ab59ea4a6e9),
    (0x3034fb24366123ec, 0x6dcafcad35726dbf, 0xb16194c036dcd648, 0xfa69439bfcd00cd4),
    (0x1aa7e8f4189ca9df, 0xf3db2ab7648be0a2, 0x392995ce46041e04, 0x680dca8ad7232df0),
    (0x1fa195f834a69e62, 0x372f60eb497da167, 0x646eae14153d803b, 0x39dc5d11f5d7800b),
    (0x0f23f1c74d5fbf61, 0x95ad5a6aee5e5699, 0x3c5477e8453f5b93, 0xa0d7bafd333036d3),
    (0x016556fac9348a73, 0x5ab50aa089c97151, 0xb3caaf0a20a34fb9, 0xd9370505a1515729),
    (0x23d92b793648110f, 0xc5aeef0633f0c77c, 0xacb0dbbca1879b8a, 0x6f6e5df445e5f70b),
    (0x2e4c10ec5e65e2f2, 0x39bbc43c13031df2, 0x686ab40fd79a304b, 0x05d611b823f23b73),
    (0x12418bbfd77b63ad, 0x5e16864ad9c32ffb, 0xfc5a3dd9b78ec2b7, 0x9329fe5e0a8d2953),
    (0x1e4a8aace15abc1d, 0x5b76a9e848431d2c, 0x06a78f72b6bebb12, 0x93e6c58e5185696d),
    (0x0f3e96107decdbd6, 0x872c20ea09acf92c, 0xdf17a3ee1d133148, 0x8092d96176deb755),
    (0x012c3780207f395c, 0xc21deb0abd951681, 0xeea32498ddba6ce8, 0x97a8f9f0c2357067),
    (0x13eab1b4e672ba1b, 0x1c1bb901769301f1, 0xe5659d03ea10c61d, 0xe2477ff0ac221421),
    (0x20dc664abb20b745, 0x6c06629ce37a1ecb, 0x1a27a4e8b24e31b4, 0x8b9c4635aa30323e),
    (0x2c6b1e2cfea78e2c, 0x36785e76a8cfb1b0, 0x57e9471f24f5b391, 0x175c3decb01e000f),
    (0x188c926255f5b7af, 0x3da96355729c2a86, 0x70ab4c2c70400481, 0xb2ac903740e0c5ab),
    (0x2f9913208e09e3d6, 0xe9e6fba6384fd076, 0xab89f2662976e3e3, 0x0e0870bb30eb54f2),
    (0x2b33803d90889706, 0xe714f720b5628d26, 0xfb60b545a1f3e9ce, 0x49a6ae912b024086),
    (0x26ccabc10eb04327, 0xcb5cc3dde2abb36f, 0x097086c97e738c13, 0x3c9f57077e748b09),
    (0x1b16ae0d7c54408c, 0xb75fd931f246751f, 0x2b0c3dc20d79e82a, 0x2531b76c22b4d5df),
    (0x11d0bb461bd8af28, 0x44f49f0f840c94ef, 0x9518b2511344742d, 0x1f5438fe3d415ae4),
    (0x233031847b476bea, 0xd0118d3db338e891, 0x33ec420d673e504a, 0xd647259df655571e),
    (0x1f84e97895bee438, 0xeb3c92dc9b1846c9, 0xad29c164387b06ae, 0xb6ed1841ed8c4dca),
    (0x277f7f9b542f0c2b, 0xb5f45bed054f0962, 0x4536010c3cf9452d, 0x2273193327f801d6),
    (0x1efc9c9069e5068b, 0xaac13d2e6645641b, 0x7d27e80fc2307716, 0x1535c44682ee57a9),
    (0x0d6ec477761e2efb, 0xac4f14b3bf3d5257, 0xa99e64c3f25fe104, 0xfaf988b20fe5ff44),
    (0x0e0e7d7c5501999b, 0x7d16173b59b7cae1, 0xf203bef21aebf002, 0x51881439ccf93013),
    (0x217bef2f4f12c6dc, 0xc91c2058a23391cb, 0x77de53ca6e44dcdc, 0x6ea3d36fea326ea6),
    (0x05780c88adf01531, 0xb50f817e3fe44447, 0xd29b35aa8a389c71, 0xe8cf1226acef68ba),
    (0x18733887a6b2b3b4, 0xc90d8e4990196e23, 0x445e47d7ea5939eb, 0xfb89a3ee3d67b4bd),
    (0x20bace63acfcae0b, 0x1c9f2bee24b8e9da, 0x85ba597d37b09057, 0x20c4f15db231b07a),
    (0x166ea595375a6786, 0xac527ee9eced73ed, 0x6bf550876abcaf3a, 0xc92b42c808b00d8f),
    (0x304262a9eff4040a, 0xcf43e322d6f52676, 0xae2f853ec2e7a80d, 0xb00c488cf917c74e),
    (0x226bac7050166e5f, 0x6db78cd0b12d36f3, 0x05b6e8c9a055114a, 0xd7709e6f57245b6b),
    (0x26b2f539c573829f, 0x6aca91baa954505b, 0xc5c3eb4e1df1d638, 0x582717fbdf2388cc),
    (0x06a0fbf4cd52e93b, 0xa5e4c6c4af65db02, 0xee96297f8ad200f2, 0xf1cff252e769b551),
    (0x2cb9c24112d35341, 0xaceac88360fb5289, 0x24e58b6ecac321b9, 0xfb29e6aa3368ff23),
    (0x20e88a4d607526dd, 0x07fe08a3552a4466, 0x9129eb87fcc0b13a, 0xac8fe8afd9301521),
    (0x1544649a2bd73e3b, 0xa72f396df91dd654, 0x01dd8faf51de325f, 0xbaedb9d536ad94fc),
    (0x1980077457995712, 0xc44da7e17713258e, 0x3f8eb354bfd80ed9, 0xeaf3ecbaf6960105),
    (0x25d1d22ff13e7705, 0xd3c085f97fc4e4f6, 0x914b82ffaa5d2091, 0xec64dac423765ef7),
    (0x2fec990ef556efe1, 0x035a464ff5581e74, 0x067445cd54abcaf6, 0xb8c0399fe0d24cfc),
    (0x1bd9563506d9544e, 0xf3e4830e13545012, 0xc579379c2dcc1330, 0x416c4ae49bc4ec61),
    (0x00affcd17ba6003c, 0x56dfa85571fc2973, 0x7b225a80d480e7dd, 0x7edec01f14f23010),
    (0x23670dbaef966881, 0xf07f919a2d883128, 0xc7b23cf767a477b2, 0xb2e0762bc0dbc18b),
    (0x1f93a532917394c7, 0xe22fd17abeea6389, 0xc66fd7ae2dd9f02f, 0x860f6d96947f0edd),
    (0x2de42e9f537b7d61, 0xb0213771c0e74f55, 0x5512be07b6a50934, 0x734e2c5beb40be37),
    (0x25c557f45b99781c, 0xd37d3bb22931662a, 0x67f78b37782c885b, 0x456bb96d55e88404),
    (0x2074c8b709705c98, 0x88538a7f8a3c4aff, 0x647731bd16f8e254, 0xfa74ea9f2be7662c),
    (0x2738355956298138, 0x949e442171d6a4e4, 0xb74ef2065740db7c, 0xfc3a0b60fd573acb),
    (0x13d36ad0a4ebeb81, 0x969778649659c65c, 0xb7d0c41cc519871f, 0xdb71a9ea6a0caa56),
    (0x08a2c18ba4138134, 0x8c1acfbf96177168, 0x06b462a1691bc2e3, 0x43b79b8085e376b0),
    (0x059092fc395aed28, 0x5807bbf557ad9a10, 0x41f59c079822b108, 0x8457882fee7b612c),
    (0x161924151b5a5ad2, 0xd8cac119522a991a, 0x906f15e8531dc705, 0x67f6b28371cc24e3),
    (0x1c68ca8f7aa17659, 0x075405ef6341b8e6, 0x9a298b9a4d72f3bb, 0x854b309e4ba87a1b),
    (0x27f5d03bca1c8207, 0xf7239a4b2cf73ae5, 0x59a15aa37e7bdddf, 0x3aab05eec5ce5592),
    (0x0ecbff4846962a97, 0x5d347ea9a8fc465f, 0xb46861557622f2c2, 0x564a7e639833c169),
    (0x277c4de2363d8b5b, 0x456cfc5a7ff8e46f, 0xf2ec8daa59855f5a, 0xd64bc0521f3ac567),
    (0x1b11862c52acd351, 0xb7a464793f4fbb57, 0xfec99f832b63226f, 0x95d175c8d2fc08b2),
    (0x06a719c584c74ffb, 0xdd7218eb565cb4c8, 0xbd86c92e3dfb3c73, 0xe1527201aa51234e),
    (0x230e4adeecb79987, 0x7f7ce9a58c836b99, 0xd533584a195c1d77, 0xa313abe1c7d126bd),
    (0x10b109b864809c47, 0x67a133cce6cbad6c, 0x88628173b8ea51e8, 0xcca85830ca7de522),
    (0x0e21117970dcfbd4, 0xb1526b253636f377, 0x538d3b4faaeb5a8b, 0x24bf6200d14cc591),
    (0x2667349978401362, 0xf6b17939eeb0e64f, 0xf55607ebdb35c707, 0x1db46bb3e7ba4778),
    (0x05000fa5fda505e0, 0x29a13bfe304c267b, 0x0d86c72c039babf6, 0xd3ff02ee246be02e),
    (0x264d9e094aed5f41, 0xa60242220a34a284, 0x089087b2436a9bfc, 0xe8174cc9be8c2e20),
    (0x08076f9c4743de61, 0x30ff622cf401edd2, 0xc92f24bfe114f3c5, 0xe724891746315c47),
    (0x132370abddbb0b1d, 0xd57f2a520c25336b, 0xd7cede94b95bbf5c, 0x2151d6d88e641b64),
    (0x08ff1116b7a227bf, 0xdfd4465a67890882, 0xb615c8c4c17f28d8, 0xd24958edf602ddcb),
    (0x2bcb0b0db8b9e3e0, 0x2b7e9c1c9460fdd9, 0xc6cd98562332e648, 0xd8a3e0ab94597520),
    (0x12ea68ce6881beca, 0xd7f8a6b117b03ab9, 0x76f7abd597f903b0, 0xbf230d20d21a943a),
    (0x27439c98a7668806, 0x7a097b19b6fdd7d7, 0x8d5f88e274e0d8fe, 0xa5ea6b7406fdda7f),
    (0x02f40d0ad05f5652, 0xe31ef9440ad71ebc, 0x8419e393493937f0, 0x5f00499d02a99e36),
    (0x2fbf04284327ee4f, 0x680f06bd390e309d, 0x0d13acc74b9c5b14, 0xb63059b8cc7abff5),
    (0x1be686d53e2a8ad5, 0x7a828b0651425cfc, 0x6978c7027edbf247, 0xf6b6723c21df86e7),
    (0x2683b425e85a508f, 0x96852f14b4220fcf, 0xe9f7ad8b17bfefc0, 0xe348c47ca78bb57f),
    (0x16dace9b2e8012e3, 0x1db1c7ebe672d86b, 0xbe61a1aa3e1693e0, 0xeddfc0de0a9dd951),
    (0x27a321f8c7d3c902, 0x2e962f7fef2e3c84, 0x8b4539dbb75aa139, 0xf30430fe545bcedb),
    (0x06ccd7210dee1d6b, 0x0e22b79e12d19082, 0xd8078b788d71007b, 0x95e7a774ed86a651),
    (0x0a41dd4222165375, 0x2bef350f6d74a917, 0xb6cbb1fd76a3a121, 0x66f4d0be978e4026),
    (0x220a02881e4d47ac, 0x94d950cdf8386274, 0xd1782e27cbd0d845, 0x978deec91298f165),
    (0x0e2155a545fe5f3c, 0xbb6397606589eac1, 0x9cd92639339c6b01, 0x7298a4ad3408b4b9),
    (0x0f0f19c6291e5154, 0x6a267c60cc774e5f, 0xb9d088bac530782d, 0x891ec1af4b847073),
    (0x0e925bcd1c6ddb4a, 0x3a1c67ec8deefbd4, 0x0c53c0d33e7aeef1, 0xb46795aed5943c9d),
    (0x2ad000b1748abb81, 0x2cd6e5411286b9ff, 0x3ef0a5bd3d259a36, 0xe45ef05b9eb5beeb),
    (0x0a65aa232d32ed6e, 0x8de63d1cdffebc2f, 0x3fa616465c27aaf9, 0x7e8cd3dcff648652),
    (0x0263d8470ab4b1c6, 0x1d74d8e896242f4f, 0x261dcb167a3a0692, 0x3893d7cb2c93d6a1),
    (0x2901d946addc94b0, 0x40fd58004d9a5f8c, 0xd1926540c7a8612c, 0xec1c58cb60c2b3a5),
    (0x1889cfa8209f4952, 0xdf9022db9dc583b5, 0x717a0696da41cee6, 0x4937d0cd6321e693),
    (0x236064d71cb6c64c, 0x84747ac25fcf8d88, 0x1502e5f03bff8756, 0x1b85a116b1f39aca),
    (0x2ff7a174ffcec298, 0x62e04f5dbdc73ebf, 0x3661570033576290, 0xc0c1f6cd8ced27ae),
    (0x19e724a1d742cab1, 0x03455f0040edf745, 0xa2696a71084c93e3, 0x22715450dd4d6f5b),
    (0x03eed3892b6f0e6c, 0x5da1059c5f379398, 0x5835aa283500a812, 0x9904a94c87f161bf),
    (0x08e2b8273bfa30c1, 0xac850306d91e468a, 0x9e8d05092aee4cbc, 0x80c687248463ba30),
    (0x07adcca76d833772, 0x8839a1b6ac3b3ed4, 0x2afb87d72af98f52, 0xf416f2ec58b28cec),
    (0x171ef37896bae2b1, 0x020a0a5839bd5178, 0x4ce11bb4237d548c, 0x171169d32fa19b40),
    (0x20ffdfcb86f4d005, 0x064edbc296918c33, 0x2d32fbeff1729de5, 0x056a26abbc3a35fa),
    (0x08ecd7a6f1735eed, 0x86baa094e608f488, 0xf38dbb398fcfed4b, 0x994383a0ca8e4647),
    (0x1c3f5d86e5921fde, 0x9890189f1d8c6187, 0x54288600e6928bc1, 0x82ac4d5e4c9f0ccb),
    (0x29c61184ed9d460f, 0x337558a1af639aa7, 0xe3c0975e4014ed8e, 0xbcad4a25d51eabf3),
    (0x0defd45b28958728, 0x228adbb2dbdaef6a, 0x5e9b1a64902a734f, 0x402b8cefb8ab3b56),
    (0x0a74ea22d8a09336, 0x060610179ac1d82f, 0xffa9492df76deed4, 0xea60e0133b0811a8),
    (0x03a37bf12daf1400, 0xd297ac4ac13ba24c, 0x17dc262db16c8523, 0xdeee4e0ccde9a680),
    (0x11fe1790d5abbf59, 0x35ff22318e4f7ffe, 0x69966ada2f9136b5, 0x4f830eacb0a65368),
    (0x018165842f406375, 0xf2346686915afb14, 0xbf1fe0564c8858ee, 0x3bde0aba3de5f68f),
    (0x261db25e7cff5a9f, 0xb72f276b1f9260b6, 0x67300fb7d361b50f, 0xd5c0e8b6995b05f9),
    (0x2a3ac3314b2b66e7, 0x96fbe36df778c5e4, 0x6972320cc43ec807, 0x048826b6704ba7c4),
    (0x23caa4b80ecfa99e, 0x9d3fea2bbc1dbbf3, 0x69d1bfc8937d03d0, 0x74061c30fd8cd76b),
    (0x27db260085e22489, 0x8df145f23f635f20, 0x66d8e4e124e581e8, 0xc6261929b1dfe107),
    (0x274f6c5fd34a784d, 0x6b915ef05d424ee6, 0xc0babbf369e79ab1, 0x38b8167b5618ec7f),
    (0x2c3a29e13a84d26a, 0x0911c9289daf1aa4, 0xcf5840aada0701d5, 0x7e23dfc796da6da1),
    (0x1ea210f2001a334d, 0x3e801f4e53270d42, 0xda7aaf317a553b42, 0x82aa78eaa2282e6d),
    (0x254dbeb52884b699, 0xc1ba7fa0d6e80d61, 0x0903b18a3e509c36, 0x351ccc3b024946e3),
    (0x059e781d65896ebe, 0x0e4ba26dc2f29907, 0xf47bcdeda4a2ca2c, 0x713d8505ea31fd5d),
    (0x0b5b1cec63d42d5e, 0x615dc269b885a24c, 0xef303ec78c972dd1, 0x7cdbb3e915cc4ffb),
    (0x2a7c015e9c3b2c57, 0xca8b7d26d39a1bcc, 0x85d6ffacb7d9fbd6, 0x6d2a8f1d64ed0c92),
    (0x29b736b911d71a79, 0xcf63d8a6f786f11b, 0xd5abee24161dc567, 0xa7c851eae1e43b51),
    (0x285745a90a7fe3d0, 0x9af5a808704bc69c, 0x6f1701e573912df5, 0xcc1e265d596c4141),
    (0x2d901b8195c3c96c, 0x8c36eb99fec0134e, 0xc2b8304ae810bd30, 0xda554e3080826715),
    (0x1905d3518355eaba, 0x7859b591ed7b8c9c, 0x253980f0450dbdf5, 0x4d7a7782ba058392),
    (0x23e813026fc0b800, 0x64d19b5c5428942f, 0xdf7efea80bfa8ec4, 0x095272bfdb7b4c9f),
    (0x23c0a19a252c87e6, 0xb1c1c21b1a798002, 0x00c3fbff3e3300e7, 0xe5568071de9efb81),
    (0x11c4ae607bae4924, 0x13bf62cdaa2c2868, 0xed1fec6dc0631b06, 0x7ca60fab125b9e2a),
    (0x2cd055ebb7ee4686, 0x365dea450f046ff6, 0x2405fae1b1afc9fb, 0x01707cf81da0e3b9),
    (0x053c9fef2e021fa9, 0xa20fada22fdea150, 0x5b58a3159bbb4733, 0x7dbf791b215b1452),
    (0x0a35bd74e87cbaba, 0xabe89ad1319d2c9e, 0x863b4c631c21938c, 0x9a5395bf97872a9f),
    (0x1c115056539ce20c, 0xd5a04d1a5c43e2b0, 0x0fbe83b25901be36, 0xf5ddc4666fc383fe),
    (0x242954047e5772fd, 0x3bded590ec8beb4c, 0x542f2e264c8c3e28, 0x4cdc473505c51a90),
    (0x0e2abd315b47c0dc, 0x93849c0cdf267e81, 0x1cbdbdb200a6e7c2, 0xb67edf7cb0174214),
    (0x282b37020c0890d7, 0x51c3fd76950d8068, 0x668e1dfeae621dd5, 0x52d2de887da2ea75),
    (0x28933852266b52d9, 0xea6b5bb923d9d94f, 0x2e5a5be5c778e75e, 0x07942c234b643bd9),
    (0x099ab6765505ba11, 0x98ef140e77b7954d, 0x4fbe79a056ce72ba, 0xce39c048c00da3cf),
    (0x2af211d8e0ac2d8f, 0xda7f849b8f229a22, 0x5c6186b55762c7a7, 0xb2ae2d1dd85c57cb),
    (0x0cd070f234014a28, 0x09ab90c71c1da61e, 0x98a96322fedd99b6, 0xaaae1ca104f3facf),
    (0x26793e2abc8d3c30, 0xc60626fbaa158f26, 0x3587d6bd15833d44, 0x8b116264b930256a),
    (0x225be36ed0ee85e1, 0xf845ada84e5748a5, 0x6699152113ff61b5, 0x056b6d8bde60c19d),
    (0x02174f49edb02d51, 0x54d2beca2dc92b9c, 0xc595383da1fde8f0, 0x9e4b5ee3ea5a065e),
    (0x0f64891c2c8b020e, 0x46c3594cb758f0bd, 0xdcdbd09bd0308816, 0xfb41734a869872c3),
    (0x192a84ca2f99d369, 0x91e2d2b1deff3989, 0xd1c156c239e10e9f, 0x56140e1854576067),
    (0x29dfcd7b63f05abf, 0x2753a8c341d6b7a6, 0x0c6243b04c9a1b8b, 0x3320bba04a4d4787),
    (0x1ee27ad6b9b5a867, 0x733afc61a2b3e76a, 0x52ba3e4bd5e657ad, 0xe91fc038819dba5b),
    (0x0ab4773f150c3f8a, 0xd3bc9538f43cec39, 0x5a7e3731ae973fef, 0xeb623a09217e64c7),
    (0x13c352a02f595186, 0x202cb0b99fa58c55, 0x42ab67f9b6d3a0af, 0xd103deeff6d80f41),
    (0x2a97cf2c10c4bfbf, 0xd299f67c52a169f9, 0x2c05b7dac56a41c4, 0xdd4fe87c8246ce14),
    (0x00becbb47042bd7f, 0x8c9f6bb422162d1a, 0xed089a28482f7fd1, 0x6ab06a13285fe702),
    (0x008e44da21d73869, 0x1b881757ef37ed29, 0xc5bd9f7a4450fcf5, 0x3290a92cc2ca2176),
    (0x2b205a8b6d4b7063, 0xd931f3bb5d346405, 0x3843fe7fbe4b83c1, 0x7883f86527882a18),
    (0x2d9e32a7c90556fe, 0x108d255ac01e75df, 0x338fcd63b2bf84c1, 0x9280d427298863fc),
    (0x29a322a84c25bd2d, 0xdf6e2e4200228d95, 0xabd6349a02266ac1, 0xdbba520738ceca97),
    (0x0678c9bfc6f2df01, 0x2f4fe55e33bb68ac, 0x14ced1df0d021527, 0x92089d046d828c43),
    (0x0faff3a5e7425794, 0xfe20a7e0eb615b8b, 0x1760394b7f230428, 0x6a3ae4009124db23),
    (0x1f8f5b611af9feb9, 0xcea86c0840581205, 0x53e404103aee213f, 0x5a41d1d02541c0d3),
    (0x160875d8479602f9, 0x6f40acc2d042ee52, 0xc1588b6a29de4284, 0x965a6dc6c930ea07),
    (0x16d87a5183a316a1, 0xd70afc951efe2cd6, 0x67c77328fcfda458, 0xcbf5fe3045f46d9e),
];

/// The MDS matrix for BLS12-381 and width 2, row after row.
pub const MDS_BLS12_381_T_2: [Limbs; 4] = [
    (0x1e6d0cd936714f21, 0x24fc4c7832126617, 0x4fe2855e689c6511, 0xa36ecadc3cccc268),
    (0x1240406fed29618b, 0x5515b2170437e1cb, 0xe9dbf814d630e4c7, 0x1109f74a157a9bcd),
    (0x70720066b0150aa4, 0x15f3fff26ea0b231, 0xe657f63112a36a97, 0xf0833f3c18dfa4c5),
    (0x6b07f55f01bb144f, 0xece2d7068241cef3, 0xeda1aba1730dab73, 0x367f3d06e994a23e),
];

/// The round constants for BLS12-381 and width 2, round after round.
pub const RC_BLS12_381_T_2: [Limbs; 128] = [
    (0x6267f5556c882573, 0x24c1c8b00d5871b2, 0xeba13cc39d72aa10, 0xdde6b69bc44c41c7),
    (0x30347723511438a0, 0x85118166c68bf0c4, 0xf4ab5c10a2c55adb, 0x5cf87cc9e030f60f),
    (0x10db856965e40038, 0xeb6427303181e7b7, 0x439f1a051aa4630c, 0x26cf86d0a0451a4b),
    (0x5a3d2dcd541e4faa, 0xae7eb143eec847a0, 0xf652b6dc1b92e3f3, 0x9ec23c808b3a5d63),
    (0x3b07f0ff7edcf93b, 0x1dd0487bc9fab1c6, 0x905f9ceee38dcce8, 0x3efeb3a320398526),
    (0x40c73c524b9fd0fa, 0xb63128175befe07b, 0x5c63ccdde9ca10e1, 0xa37205c9607fdf8a),
    (0x3a933861cf237523, 0x76d94dbb24b0f3c6, 0x1630787928875c07, 0x672b68abfb9191e0),
    (0x71cc165e208570b2, 0xd5ef81db84e3c5e7, 0x14ea4edfb36fc7fb, 0x11ef65a64b2d9755),
    (0x6c0dc9eb332b5d96, 0x8bec8ad68fe24ce3, 0x4087ea54093f1536, 0x18434475bce402f8),
    (0x0af5bafd335dae5c, 0x86967b11d5dcefb9, 0x86a54c9d60d35eb0, 0x6dc7a3fd779b3906),
    (0x6e12847918f030f2, 0x626c150ab69e4be0, 0xf13d202ae1f8bc87, 0xea74323e93372e3b),
    (0x5565d40e21d059a2, 0x6db241ca125d9316, 0x283eadf144b1318e, 0x604e253eeae1fe9a),
    (0x608e01b42d3dca09, 0xfed9b54eadaaba3e, 0x4ce6aefe92b0dc95, 0x4a0fa4683a9678f2),
    (0x16bbe434b24f94e2, 0xc40ed1f4f9bd7d17, 0xe5be96c3aec15579, 0xb35fd80f0f80de9e),
    (0x0d1be811a8e73220, 0xcab01ce981d47552, 0x2c3d7dd9e2716c3a, 0x2cf4ddd541546890),
    (0x5997a3affb18f942, 0x868b86f8ee10a689, 0x66e90bac7bbd8c65, 0xede7e6e5ef1f6320),
    (0x4d92e86d27004106, 0x1eec80278079fca7, 0x71499dea5ccdc996, 0x82a953bb3a038b8e),
    (0x616c8c5ce232b931, 0x4f694fc6a968446e, 0xa9daf7a4079ce1a7, 0x5fcc950741d680bb),
    (0x677e31e7846d9131, 0xbdc350eaf11a8ff9, 0x18dd258ddd800444, 0x424afab34dfdfe3d),
    (0x4e7d7f85aefc110b, 0x233525ee3e53851a, 0xee7d3241e2a13258, 0x5e0e25005eee0b0e),
    (0x06a8b4539488b7dd, 0xdc48c3a226dbda31, 0x3f906e106f844196, 0xd55013d321244f13),
    (0x5091517b6a857831, 0x08999f8e6bda3c79, 0x3bef3f2e9589641d, 0x260bdfde8bdef00d),
    (0x0d2703e5b30f54d7, 0xf414e901802d54f8, 0xc14cd6355415df6e, 0x0f063d16bef9c43a),
    (0x56f69096811148eb, 0x38eec143d32565c0, 0x77b3d1a4a4351f2b, 0x458f43b1659d4495),
    (0x622d94d38d1ded42, 0x8afd062008c5709b, 0x43a678f6ba518ec5, 0x6383e8ffba473504),
    (0x2730c607bba73337, 0x23a4a44577819b7d, 0xb82a24574f6d13ee, 0xe4c856c1ca3de9c7),
    (0x01ac5f59256c5004, 0xdc1043c53b23800a, 0x3fbab53eb1a83f55, 0x1056f227b514b9f6),
    (0x0790b92523c973f1, 0xc95b94937afbb579, 0x6d89481e7a56328b, 0x44bab5ba81ae42f3),
    (0x1d63b59d97bc269d, 0x13964fb3e8771d0a, 0xcc749bc83eb2f037, 0x2484e266142bb8c0),
    (0x1a52d04e5f14a3a0, 0x5f7a01262df9e68c, 0x77fdf7e2bfb56c8b, 0x252d2140efdf0914),
    (0x5aa9b3b808812b28, 0x4857e8622843a871, 0x7fa5cb49b217017f, 0x31d79e8d0f963fc0),
    (0x6a3d18fdbeb1d77e, 0xc1304539b00e6188, 0x786dbbc4435269b4, 0xc6281367f42656e3),
    (0x4743e860df269a85, 0xdd76fb99dbe9d840, 0xeb669dc859754b3f, 0x74805e57ba288b00),
    (0x6c32cac3946825f8, 0x0a434c5ab397fc1a, 0x1c6a9bdfaab53175, 0xd4cf3d29ddb6cbc6),
    (0x333b0eea5da7ed1e, 0x3959d16280a361aa, 0x77dd24ecbfb28e1b, 0x2583ac4e9894305c),
    (0x3b503fc333b795cc, 0xc0c5bb3ae26b077d, 0xc3742cb745ec8821, 0x648c5ce7ebd9df18),
    (0x4fa5853188d9f728, 0xa17532d94bee6fb2, 0x8fee510380a5d509, 0x27c6c5b1ce283444),
    (0x5d2ed8a6603a905b, 0xac490ebfb9e6c18f, 0x0bc9da1bbc217329, 0x1b18de6b6186118f),
    (0x2d830a53584c5556, 0x264852f075c78f7f, 0x9eb068016ae88af9, 0xcda933d6ae52eca7),
    (0x0250f4d6780ad29a, 0xe60e55f135b9ac80, 0xccc7c81e3add37db, 0x276c26f1a2b1b86e),
    (0x6e3e9595f5922059, 0x9e23e830728d4a0c, 0x4d62515ec1ed10b7, 0x2446cf4df5b4c308),
    (0x2cd3314555d6faf2, 0x3ee90cdb884f1c46, 0x97ebe98e3a450a62, 0x4c4d896233b93cd5),
    (0x584a408d0f370543, 0xb8413fee70a060a3, 0x94e561f504d8679f, 0x7bece4bf222e4108),
    (0x499cd53437b9fcbf, 0x7479c00fcc212957, 0x59074ce9bd1bb1fb, 0xd3460237aef4759e),
    (0x56a9b567bd0646ef, 0xfd0608d74d537991, 0x136098d9a06af6cb, 0x3ff8f010efb57578),
    (0x6a5fae2b00d968b9, 0x31441b374e27ba4d, 0x03b306bd602d4873, 0x1677169e75a67e8c),
    (0x2e1cc28e390e64aa, 0x1d60edb99c0aeda7, 0xc8c32bdb01ba11ab, 0xbad5026b46eccb27),
    (0x2d4820000675df7c, 0x276beac408fe2e85, 0x1e734a7008ae09bb, 0xcb3c96c70024f71b),
    (0x0c2fe101a2b52b53, 0x8b902c6b2dc992cb, 0x266f7636e05b0c06, 0x8385b5fa19e97142),
    (0x209b790b78c0e792, 0x7c6a178ef2f00b86, 0x87fc7bd4f21a9e02, 0x578551535002bc95),
    (0x2dd0926cf56bbaae, 0xc6491513d08a9983, 0xf94a910852a7b4ea, 0x4bd4222b93e14c10),
    (0x4316b39dd7d65b1b, 0xb575198104d409b1, 0x69236a7ade371f7a, 0xb176fcbae75a5f0d),
    (0x540276d61041b91f, 0x6ea3068ec260a933, 0x8b6e3da15d934e64, 0x8c24f35aee04e535),
    (0x37af612900b83997, 0x7b146324c84772c5, 0x8a4ccc0f6494cc05, 0x4571827e74bfd2d3),
    (0x2af00c93d59ed14c, 0x9911e5cb3781d772, 0x371e83228e4267bb, 0xce11d065c1955338),
    (0x62b48779b0cf7ff2, 0xc10fd9b91a6ff7b7, 0xa99f935e961a5a94, 0xaa38f9d4f71c8b4c),
    (0x540bf5bbe01f2856, 0x3bcbe11a2ce346d8, 0x231a2cdd0fe07641, 0xf9fa89e5c21978e3),
    (0x232b6c847a6d2391, 0x2cb10ecbe50b5349, 0x1f67f71e9b87a4a3, 0x0446f2218017874b),
    (0x0ab34adbe77b8f1e, 0x57a370e4fd626071, 0xeea74b3f0b66644a, 0x629efaa0e96456c0),
    (0x1a83e43ef118c900, 0x46b1bdbeab8dd5cd, 0xcab632807c2cd0dc, 0x9147cbc5b7084be8),
    (0x1ec6fa41b41b672d, 0x9005468720918130, 0xb642567462a3d557, 0xa595d4dc6c56f2f9),
    (0x01f81a153199a751, 0xa111b8f5212cfc5b, 0xf82aacf0287d03e1, 0x864f8e5713fe4a17),
    (0x2617307587a675f4, 0xecd73a54a7b20616, 0x2d751cabf3d9fd00, 0x7bcca4de2c6f0649),
    (0x1647be94c515178c, 0x7974a245624b642b, 0xb1ae6e2d4e168208, 0x7e362d7f98bc953f),
    (0x6e690b956e00b9e3, 0x39dec49d675586f6, 0x61f9b081ee3fa769, 0x6d73977658aa6fea),
    (0x660b85bc22de06d4, 0x76c47bf084ad436f, 0x59874f1d630c0f5c, 0x91fbef51d5e738c5),
    (0x32bf3d451b69dde0, 0x75fc370eaa8c1b77, 0xb5c0bc2aab1c7b46, 0xda7ef9d1840b0419),
    (0x73924b40beaa9c1c, 0xe4074c2154d1af4d, 0x658c09395a568b99, 0xb2fbcc3b5685e810),
    (0x17cbb3ee0adcb9d9, 0x77e96e9152b36042, 0x925244fdd0aa184c, 0x7a89a58a2dc40097),
    (0x29d76a821e322077, 0x5c552f6b5977ab94, 0x956e52b8dac36ef8, 0x8ace050d553766a3),
    (0x62b1a6c06ab26881, 0xa1fe57eceac56b5a, 0xec0b96da7211557f, 0x4e27ec24296d7db6),
    (0x0dfc474151e5c605, 0xa693a51ae8227cc0, 0xa99fdc4524fc2810, 0xc6eda9035d04334d),
    (0x3e287088506bb38d, 0x2ed465cdab37a7b2, 0xeedafb47557446a9, 0xaec9d366a91b1d98),
    (0x2641d2919d0bed24, 0x673c9effc2457879, 0x8c56f3cd39940030, 0xaff2c913cf58974a),
    (0x286c1f841a05bb66, 0x7c84d93ba9359da9, 0x01a545ecb1c6a374, 0x03c5e74d0a663cf9),
    (0x68159ff06a0aff28, 0xd53ecaae5654db9f, 0x3017f564378fccb6, 0x8af2a47f10788d17),
    (0x432ff6c037e9ce6e, 0x61172862cc076d92, 0x5d00f4414fa4f4d8, 0x722c4b1460c2f04b),
    (0x5e1a35f47c87b33c, 0xd37544c51d7dda1d, 0x7e262af52b11133d, 0xf163d2c94e9f0674),
    (0x0b8d468618387249, 0x4b4416fc82317a4d, 0xeae10e7c312aeb8a, 0x44697b49b1025df5),
    (0x6291c6d458499cff, 0xd8915196bde5fdcd, 0xb7eb5ef6b1e6d15a, 0xab7d8e95cda2c564),
    (0x0e2f4df2de650455, 0x3f057c1046bb04de, 0xcf779baff7457cce, 0x028c4f55d4f4f0ed),
    (0x1694268ccf0cf400, 0xd1c77259d9766437, 0xe5a35810b8540228, 0x29ead0b3e70aeba4),
    (0x3c96c51a30dc76af, 0x38c9c08c36ee90b6, 0x26c28910a0994e08, 0x54b5375e7f46698b),
    (0x5a99402864789e9d, 0x2bd2930a70a54adb, 0x66865923b4a17ef3, 0x6a107020e44a73dc),
    (0x5a22c7703f1ab4a5, 0x5031fc34aab07320, 0x18e931ba48c8c38c, 0x65bfaf5e610ab7af),
    (0x686fea1061234739, 0x55c3e9365afa2238, 0xa5e35390360884ed, 0x7555a8c5f8d66a20),
    (0x6a68607546ff48f9, 0xd154b924ccf0fd85, 0xb608ad351e4bcffd, 0x6097d4d175ea53bc),
    (0x21077e81fe5a0bde, 0x7f6f2631f93cb33d, 0x07d1928befec6a43, 0x4bc0616ef5b3dddb),
    (0x11aeb10c549bc49d, 0x3ea21f84ea42ba33, 0x74a80c7504186d3c, 0x9c9476e7a380fb90),
    (0x4dfbc6f6a54a316d, 0x331770308f53534a, 0x01f4b9a50210cb08, 0x1fdee076e3fd6871),
    (0x0e9ba2efbd177a7c, 0x3e3ba0716b5de50a, 0x24937f94bd974919, 0x41e064704a024904),
    (0x1dda541f2f744aae, 0xe3c50c2d9abc405d, 0x8fbd01e3e5c22f41, 0x92d893f45788e9d6),
    (0x2ec1165caf7fd158, 0x9fbd8cf29049439a, 0x0c266d9c002c5d77, 0xb656a2e28db097b3),
    (0x1f8cc6e561bde673, 0xe0bbbfb882419c31, 0x575e4b7ae66cde54, 0x9443f95dc23566ec),
    (0x57d97d4b02423d77, 0x38690fbea9e0b7ba, 0x8eb1ad651986f869, 0xff96a932fedbe6d3),
    (0x1205704bf8e95ba2, 0x6bca37a88295daeb, 0xa494546ea8efe718, 0x9efb000e0bcfbdd0),
    (0x016cdeebdb6f8b37, 0xfbbd4ef80645d247, 0x3d21df81eee935ec, 0x540836f06eb49d38),
    (0x19b8a2f4a6403c98, 0xadd6f220ff4938fe, 0x7b5ca43c78095f14, 0x184923bdfa0cae33),
    (0x19358aab5822facc, 0x694ee0a27a4ec9fb, 0x6bf931d5efb8ce59, 0xc25d67bb017e26d5),
    (0x0c7a80ba8f7372a2, 0xbee14572b6967720, 0xc9853f811188cd44, 0xfe24e764a2e7affe),
    (0x3894fe113139129d, 0x6f42058e3f871ac1, 0x09b87f7fcffc3173, 0x21cc1e428f9b48c4),
    (0x1aefc0785946d65e, 0xf0e62be601da8cad, 0x8e94f5e3f96a177c, 0x235740d5fb406ab9),
    (0x0af1c4fc0b49030f, 0xe545ef543ac1b166, 0x40288c36554ee106, 0xe7d1e06a4e1626b3),
    (0x5848a8b1f2645e1c, 0x36b603a083689b50, 0xb760744f96bdf07a, 0x2df821e584023884),
    (0x1318aac0f0ef72e5, 0xe0233ca168ea6c21, 0xa4e162e00d3ba70d, 0x79087df4660154f4),
    (0x4179cc529ed5ddd4, 0xaa1acf77e50d12bb, 0x9a754df8bfcb0ff6, 0xc6e1073e8cbfe8ea),
    (0x005983d5e4d5d48c, 0x2c80a4dd83083db0, 0x23217247ece5e051, 0x4e49b90cd73e3d05),
    (0x5c198603562a2e47, 0x3d5486f461f4fc77, 0x6051ab0bfc00526d, 0xf55541b87e47c11b),
    (0x39c93d11962620d7, 0xc5396532137173d6, 0x746356c6821ff037, 0x34d59af52a6ad067),
    (0x2475bc5acc012b80, 0x83fcc7d2ccb15127, 0xa2bc7bec09dbce13, 0x19e5f680bed75fa7),
    (0x66729d8d26c11357, 0x3bcb9dcd84bdbca5, 0xfb0aede246e1f565, 0x9762ce88a38abc7a),
    (0x0bb442eba5baf8e7, 0x28df8eb9c2cb17ed, 0x8ac2909427f0a608, 0xddbede534265c995),
    (0x4a432bd0cf7b12c3, 0xf31ff6ef7033982c, 0xfb702a89df14ad14, 0x57e9e108e0093e0f),
    (0x3d120149595e0c7f, 0xa884fe33f287ea54, 0x841a94be027702ea, 0x9881ad9227204ecd),
    (0x35e47349a427ba8b, 0x1df4bf4f5f1da532, 0xf25c44be406a90de, 0xf22e870301d051e0),
    (0x19caf5fbbc0a1424, 0x525971b573841109, 0xf36dc3e07eb1df7f, 0xd69d4e1fd34abcec),
    (0x4d94360247806752, 0xa4c1e622c2964069, 0x456601b666c900aa, 0x8686ae74c00d33be),
    (0x515cce538dcf5280, 0xc18d4d2973a2fd4e, 0xda2304d6f0bb0b45, 0xd01bf9a2b1fcae38),
    (0x5d157e3dbf20d63c, 0x3e0783a96c763b96, 0xf28ad0548a44fabb, 0xa29463d5fb759390),
    (0x50c6439188ea7d81, 0x53949b6f5f64c10d, 0xf7bf884d31b96803, 0x23781406fc84d4c8),
    (0x06ab7adf0f997bad, 0xc0b95360e3d992b0, 0xd5dafe9fce2c807f, 0x5de11ea819123651),
    (0x6212d6f6db15bcc7, 0xf3b1637efbfa8d08, 0xc5faebeab89d265b, 0xb7a0585b96306900),
    (0x5f674e12cce1d53f, 0x2d01b06ea1874335, 0xf8c7634443b29b30, 0x0ff011a4e4822783),
    (0x01865aba8ec3d89a, 0xca45cc1da7d8ca5e, 0x2b31a8a44178a0d6, 0xe665fbe83d63cdd2),
    (0x221d9df33836d262, 0xa34e9566471db96e, 0xfbe80c8e0602d8ea, 0x7af1c2560afc4ed9),
    (0x0f12e59c448a18ba, 0xe09585d74c637be4, 0xef24ec3d5ba00096, 0x4cf76c6032d159af),
    (0x10376fa0adb3a505, 0x40dfd9aa95fa8b5c, 0x120f4e6843590ed1, 0x56b5fcb93ecb7a27),
    (0x031597a49ea890a5, 0x0ed8381799fa51e2, 0x7e540902ada5f8d8, 0xa7529a980458eac8),
];

/// The MDS matrix for BLS12-381 and width 3, row after row.
pub const MDS_BLS12_381_T_3: [Limbs; 9] = [
    (0x44d46fa01da5117c, 0xf3fbdba05adc0a64, 0xaf6c34a56f1e3c6c, 0xba01b7a582af8839),
    (0x3fe667e00c2b55ca, 0xb44507505bba0e3a, 0x626e1ae605378c99, 0x5a65a784ff14b250),
    (0x63ce26c4206c020d, 0x51deaa55ffd4bb75, 0xf2331516053550b2, 0xab85fd269bd880d9),
    (0x42ef9cc13681afd5, 0xb00dec34395420d7, 0x89050302f55bfdf8, 0x1467c45c79019119),
    (0x0e5584fa583dbae9, 0x5ce13fb6befa8c6a, 0x8726033dc2ef49a2, 0x935a0c875e4e70b3),
    (0x5e8641d1c62a0c9d, 0x1d2fdb568dd5e251, 0x59d2f0c278522abe, 0x614e27d5df217a8d),
    (0x16582a527dd2eaa7, 0x2fb34e6404e4c5a3, 0x778673b33370e0c1, 0x613548961eba050f),
    (0x0b69c4e8a57aea1a, 0x6666cf14bbc5781c, 0x279d6386d13ffe4d, 0xb266295b4d8f7953),
    (0x42d7e3dffaf0722a, 0x5079353abbcfb045, 0x8b44cad327804ef6, 0x780e71fe3a3d9a2a),
];

/// The round constants for BLS12-381 and width 3, round after round.
pub const RC_BLS12_381_T_3: [Limbs; 192] = [
    (0x6f007a551156b3a4, 0x49e44936b7c09364, 0x4a0ed33f33eaccc6, 0x28e942e836c1a875),
    (0x360d7470611e473d, 0x353f628f76d110f3, 0x4e71162f31003b70, 0x57538c2596426303),
    (0x4b5fec3aa073df44, 0x019091f007a44ca9, 0x96484965f7036dce, 0x3e9d0977edcdc0f6),
    (0x67cf1868af6396c0, 0xb84cce715e539f84, 0x9e06cd1c383ac5b0, 0x6100c76bcc973a11),
    (0x555db4d1dced819f, 0x5d3de70fde83f1c7, 0xd3e8c98968e516a2, 0x3a771a5c9c8257aa),
    (0x2bab94d7ae222d13, 0x5dc3c6c5febfaa31, 0x4908ac2f12ebe06f, 0xbdb74213bf63188b),
    (0x66f44be5296682c4, 0xfa7882799d6dd049, 0xb6d7d2c950ccf98c, 0xf2e50d6d1ebb77c2),
    (0x150c93fef652fb1c, 0x2bf03e1a29aa871f, 0xef77e7d736766c5d, 0x0939d92753cc5dc8),
    (0x3270661e68928b3a, 0x955d55db56dc57c1, 0x03cc0a60141e894e, 0x14259dce537782b2),
    (0x073f116f04122e25, 0xa0b7afe4e2057299, 0xb407c370f2b5a1cc, 0xce9fb9ffc345afb3),
    (0x409fda22558cfe4d, 0x3dd8dce24f69e76f, 0x8c2aaeb1dd0f09d6, 0x5e654c71f32aa23f),
    (0x2a32ec5c4ee5b183, 0x7affd09c1f53f5fd, 0x55c9cd2061ae93ca, 0x8ebad76fc71554d8),
    (0x5848ebeb5923e925, 0x55b7124fffba5d6b, 0xd571c6f984195eb9, 0xcfd3a3e8eb55b1d4),
    (0x270326ee039df19e, 0x651e2cfc740628ca, 0x634d24fc6e2559f2, 0x2d8ccbe292efeead),
    (0x27c6642ac633bc66, 0xdc100fe7fcfa5491, 0x8af895bce012f182, 0xa068fc37c182e274),
    (0x1bdfd8b01401c70a, 0xd27f57396989129d, 0x710e1fb6ab976a45, 0x9ca18682e26d7ff9),
    (0x491b9ba6983bcf9f, 0x05fe4794adb44a30, 0x879bf8289662e1f5, 0x7d90f672414e8a4a),
    (0x162a14c62f9a89b8, 0x14b9d6a9c84dd678, 0xf4f6fb3f9054d373, 0xc832d824261a35ea),
    (0x2d193e0f76de586b, 0x2af6f79e3127feea, 0xac0a1fc71e2cf0c0, 0xf79824667b5b6bec),
    (0x46efd8a9a262d6d8, 0xfdc9ca5c04b0982f, 0x24ddcc6e9863885a, 0x6a732a3906a07b95),
    (0x509717e0c200e3c9, 0x2d8dca2973b3db45, 0xf0788294351ad07a, 0xe75cbb780693a798),
    (0x7299b28464a8c94f, 0xb9d4df61380f39c0, 0xdca9c2c014118789, 0xe227252820f01bfc),
    (0x044ca3cc4a85d73b, 0x81696ef1104e674f, 0x4feff82984990ff8, 0x5d0bf58dc8a4aa94),
    (0x1cbaf2b371dac6a8, 0x1d0453416d3e235c, 0xb8d9e2d4f314f46f, 0x6198785f0cd6b9af),
    (0x1d5b2777692c205b, 0x0e6c49d061b6b5f4, 0x293c4ab038fdbbdc, 0x343e07610f3fede5),
    (0x56ae7c7a5293bdc2, 0x3e85e1698c81c77f, 0x8ad88c4b33a57804, 0x37ad047c6edb59ba),
    (0x2e9bdbba3dd34bff, 0xaa30535bdd749a7e, 0x06a9adb0c1e6f962, 0xf60e971b8d73b04f),
    (0x2de11886b18011ca, 0x8bd5bae36969299f, 0xde40fbe26d047b05, 0x035a13661f22418b),
    (0x2e07de1780b8a70d, 0x0d5b4a3f1841dcd8, 0x2ab9395c449be947, 0xbc998884ba96a721),
    (0x0f69f1854d20ca0c, 0xbbdb63dbd52dad16, 0x250440a99d6b8af3, 0x825e4c2bb74925ca),
    (0x5dc987318e6e59c1, 0xafb87b655dd58cc1, 0xd22e513a05838cd4, 0x585d04b135b957ca),
    (0x48b725758571c9df, 0x6c01dc639a85f072, 0x97696b1bb678633a, 0x29dc91de95ef53f6),
    (0x5e565e08c0821099, 0x256b56490eaee1d5, 0x73afd10bb6d17d13, 0xca4e5c611b2a3718),
    (0x2eb1b25417fe1767, 0x0d135dc639fb09a4, 0x6ce5113507f96de9, 0x816c059422dc705e),
    (0x115cd0a0643cfb98, 0x8c24cb44c3fab48a, 0xff36c661d26cc42d, 0xb8b1bdf4953bd82c),
    (0x26ca293f7b2c462d, 0x066d7378b999868b, 0xbb57ddf14e0f958a, 0xde801612311d04cd),
    (0x4147400d8e1aaccf, 0x311a6b5b762011ab, 0x3e45326e4d4b9de2, 0x6992816b99c528ac),
    (0x6b0db7dccc4ba1b2, 0x68f6bdcc4d372848, 0xd4a72976c268ea30, 0x519a2f73e6db4d55),
    (0x17bf1b93c4c7e01a, 0x2a830aa162412cd9, 0x0f160bf9f71e967f, 0xf5209d14b24820ca),
    (0x4b431cd9efedbc94, 0xcf1eca6f9e9c1839, 0xd0e66a8bffa8c846, 0x4cac81a39d3cf8f1),
    (0x35b41a7ac4f3c571, 0xa24f8456369c85df, 0xe03c0354bd8cfd38, 0x05c86f2e7dc293c5),
    (0x3b1480080523c439, 0x435927994849bea9, 0x64e14d3beb2dddde, 0x72ac156af435d09e),
    (0x2cc6810031dc1b0d, 0x4950856dc907d575, 0x08e286442a2d3eb2, 0x271618d874b14c6d),
    (0x6f4141c8401c5a39, 0x5ba6790efd71c70c, 0x04afea06c3c92826, 0xbcabdd5cb5477d51),
    (0x25bdbbeda1bde8c1, 0x059618e2afd2ef99, 0x9e517aa93b78341d, 0x91f318c09f0cb566),
    (0x392a4a8758e06ee8, 0xb95f33c25dde8ac0, 0x2a5ed0a27b61926c, 0xc6313487073f7f7b),
    (0x272a55878a08442b, 0x9aa6111f4de00948, 0x5e6a6fd15db89365, 0xe7bbcef02eb5866c),
    (0x631ec1d6d28dd9e8, 0x24ee89a30730aef7, 0xab463acfc9d184b3, 0x55aa05fd6938eab5),
    (0x4eb6fda10fd0fbde, 0x02c7449bfbddc35b, 0xcd8225e7e5c3833a, 0x0818a100409dc6f2),
    (0x2d5b308b0cf02cdf, 0xefa13c4e60e26239, 0xa6ebba011694dd12, 0x9b925b3c5b21e0e2),
    (0x16549fc6af2f3b72, 0xdd5d293d72e2e5f2, 0x44dff42f18b46c56, 0xef38c57c311673ac),
    (0x42332677ff359c5e, 0x8db836d9f5fb5482, 0x2e39bd5e22340bb9, 0xba975ba1a92be382),
    (0x49d7d2c0b449e517, 0x9bc5ccc3b44c6075, 0xd9849b5610465f09, 0xea725ddc97723a94),
    (0x64c20fb90d7a0038, 0x31757cc4c6226f6e, 0x4985fc9ecb416b9f, 0x684ca0351d967904),
    (0x59cff40de83b52b4, 0x1bc443d7979510d7, 0x71c940b9758ca820, 0xfe73b5c8d5580934),
    (0x53db2731730c39b0, 0x4edd875fe3b7c882, 0x808285cdbc621d7a, 0xf4f80dd53ebb71b0),
    (0x1b10bb7a82afce39, 0xfa69c3a2ad52f76d, 0x7639826534420311, 0x9b7126d9b46860df),
    (0x561b6012d666bfe1, 0x79c4dd7f84cdd153, 0x1596d3aac7c5700c, 0xeb319f91046a63c9),
    (0x0f1e7505ebd91d2f, 0xc79c2df7dc98a3be, 0xd1b36968ba0405c0, 0x90d27f6a00b7dfc8),
    (0x2f313faf0d3f6187, 0x537a7497a3b43f46, 0x797fd6e3f18eb1ca, 0xff457756b819bb20),
    (0x3a5cbb6de450b481, 0xfa3ca61c0ed15bc5, 0x5cad11ebf0f7ceb8, 0xf0bc3e732ecb26f6),
    (0x681d93411bf8ce63, 0xf6716aefbd0e2450, 0x6454c0348ee38fab, 0xeb264702714ccf94),
    (0x5178e940f5000431, 0x2646b436727f0e80, 0xa7b8f2e9ee1fdc67, 0x7c4831a7672777fb),
    (0x3dab54bc9bef688d, 0xd92086e253b439d6, 0x51baa6e20f892b62, 0x865527cbca915982),
    (0x4b3ce75311218f9a, 0xe905f84eaa5b2b38, 0x18448bbf3972e1aa, 0xd69de321009015d0),
    (0x06dbfb42b979884d, 0xe280d31670123f74, 0x4c24b33b410fefd4, 0x368045acf2b71ae3),
    (0x068d6b4608aae810, 0xc6f039ea1973a63e, 0xb8d2de72e3d2c9ec, 0xa7fc32d22f18b9d3),
    (0x4c5c254589a92a36, 0x084a57d3b1d96427, 0x8acc7e4fe8f69f29, 0x55954f27a79cebef),
    (0x6cbac5e1700984eb, 0xc32da15b4bb9683f, 0xaabab55f67ccc4f7, 0x1d9560b3475a77eb),
    (0x4603c403bbfa9a17, 0x738a5c6278eaab1c, 0x37ec30b0737aa240, 0x9fc4898069eb983c),
    (0x6894e7e22b2c1d5c, 0x70a712a6345ae6b1, 0x92a9c833a9234c31, 0xc56aacd16bc2f100),
    (0x5be2cbbc44053ad0, 0x8afa4d1eabc7f3d2, 0x31eea799b93f226e, 0x905b7d4d65c58ebb),
    (0x58e55f287b453a98, 0x08624a8c2a353d52, 0x8da0f7e713a5c6d0, 0xd7711e47063fa611),
    (0x366ebfafa3ad381c, 0x0ee258c9b8fdfccd, 0xb868a7d7e1f1f69a, 0x2b5dfcc5572555df),
    (0x45766ab728968c64, 0x2f90d97ccf5504dd, 0xc10518a819ebbcc4, 0xd09c3f5d784d67ce),
    (0x39678f65512f1ee4, 0x04db3024f41d3f56, 0x7ef66d89d044d022, 0xe6bc229e95bc76b1),
    (0x463aed1d2f1f955e, 0x3078be5bf7bfc46f, 0xc0eb8c51551906a8, 0x868f18ffae30cf4f),
    (0x21668f016a8063c0, 0xd58b7750a3bc2fe1, 0xcf82c25f99dc01a4, 0xe534c88fe53d85fe),
    (0x39d00994a8a5046a, 0x1bc749363e98a768, 0xe34dea56439fe195, 0x4bef429bc5331608),
    (0x4d7f5dcd78ece9a9, 0x33984de32c0b48fa, 0xc2bba91f261996b8, 0xe9d1021773bd07cc),
    (0x1f9dbdc3f8431263, 0x6b203bbe12fb3425, 0xb163d41605d39f99, 0x770c956f60d881b3),
    (0x027745a9cddfad95, 0xe5f17b9e0ee0cab6, 0xbe0bc829fe5e66c6, 0x9794a9f7c336eab2),
    (0x1cec0803c504b635, 0x788d695c61e93212, 0x2fa43fe20a45c78d, 0x52025657abd8aee0),
    (0x123523d75e9fabc1, 0x72077448ef87cc6e, 0xed5082c8dbf31365, 0xd3872a9559a03a73),
    (0x1723d1452c9cf02d, 0xf419b848e5d694bf, 0x27feba35975ee7e5, 0x001779e3a1d357f4),
    (0x557b5af29163a600, 0x34ec4ae1e358e471, 0xe188a398288014f1, 0x747906449058077a),
    (0x1739d180a16010bd, 0xfcc0573d7e613694, 0x21c3f776f572836d, 0x9dab1ee4dcf96622),
    (0x2d4e6354da9cc554, 0xacce32391794b627, 0xfafa96fbeb0ab893, 0x70290452042d048d),
    (0x153ee6142e535e33, 0x4a869553c9d007f8, 0x8f3bd43f99260621, 0x670bcf6f8b485dcd),
    (0x71773e86c806833f, 0x827f654f2c5a7ab5, 0xad1935dc98e08679, 0x7aae750c35afccb6),
    (0x0c45bfd3a69aaa65, 0x635ef7e7a430b486, 0x968ad4424af83700, 0xd258d2e2b7782172),
    (0x0adfd53b256a6957, 0xf2d56aec83144600, 0x6897ac0a8ffa5ff1, 0x0e5633d251f73307),
    (0x41d52090ea5b4340, 0x2b1a9adfd5e2f5f2, 0xf1d1dc75259d2522, 0x9d2fb88eae087a1f),
    (0x4ecdf55bd36d423a, 0x334ecd13f72e69bd, 0x4d93d12cbb53a10f, 0xc0ba7f3e9ec396f1),
    (0x315d2ac8ebdbac3c, 0x8cd1726b7cbab8ee, 0x3f87b28f1c1be4bd, 0xac9d36a8b7516d63),
    (0x49261a5d6cfd4a9f, 0x2a051d9906066d04, 0xa21709c9411cee63, 0xcc015562c9226432),
    (0x40153234da114723, 0x048f6dcb7b695b69, 0xf7a7cfca052ff515, 0x26f3898cce337817),
    (0x6e986d063d9fffc8, 0x121bc3c2c4ac3e76, 0xcf808cefbeccb1bd, 0xd3c0d64738f61bad),
    (0x5283f80e81fc4e4d, 0x1c24a4cbc7693894, 0xeec452eedf44871d, 0xe8f67534ca273948),
    (0x552576887491b06d, 0x69aef8aac5710e8d, 0x844f896957a41921, 0xb12a066274c5a3f4),
    (0x59332dc761e3ad27, 0x5048a1198b73d5c3, 0xa99ba75b7b7e5995, 0x378338df48d6e398),
    (0x1b8472712d02eef4, 0xcfaec23d2b16883f, 0xc9bb60d1f6959879, 0x299ce44ea423d8e1),
    (0x4945c4c7c62282f0, 0x8e36b59ab0e33001, 0x759e70e01221c74d, 0x5505586ae95eab68),
    (0x6f7d34b9199bf60a, 0x87b4b06539a1554c, 0x413bd07c7430f7a5, 0x4c0176c94c1b9e95),
    (0x3c1cd07efda6ff24, 0xbd0b70fa2255eb6f, 0x367d2c54e36928c9, 0xc4a5404198adf70c),
    (0x72ed857fbb581d2d, 0x92932995e80188c7, 0xad9eb5c8c084d5d8, 0x29394841274c91d2),
    (0x136052d26bb3d373, 0x687f4e51b2e1dcd3, 0x4a16073f738f7e0c, 0xbbe523aef9ab107a),
    (0x623f02ec81879294, 0x1c4894438841d441, 0x653ec1e760cc09f5, 0xad102f014b6658c7),
    (0x51c0b9b1022de4d0, 0xfea7ad49bf6d814d, 0xed9541807df5a911, 0x589583ba658d4348),
    (0x42c1e81b61b7fc0b, 0x04b48024c56f8310, 0x8dc800179ca75308, 0x68724ec3239f8463),
    (0x42ce8d45e3f7bbf7, 0xf10a8fc71ab6d7c3, 0x0bcf843897bc6823, 0x208202d2e31fd072),
    (0x6e53bfc3ec7be39c, 0x064e2f0fdee7a37b, 0x0b93965712e43139, 0x4bcce9c75c22f738),
    (0x16c96beef6a0a848, 0xc1bdd859a1232a1d, 0x7b3cfbb873032681, 0x676c36c24ef967dd),
    (0x284b38c57ff65c26, 0x2ab7fed8f499a9fb, 0x012387bab4f1662d, 0x067eec7f2d6340c4),
    (0x70cb7ad7798e307e, 0xf85d4bdfc76f8374, 0x20ea23a9fe16273d, 0x60bfc6cebebb5ac1),
    (0x0c5993d175e81f66, 0x39e242198897d17c, 0xfc06772c1c0411a6, 0xaf1dff204c922f86),
    (0x03bf7a3f7bd043da, 0xfcda655d1ba9c8f9, 0xf24887ad48e17759, 0xbbf53f67b1f87b15),
    (0x3188fe4ee9f9fafb, 0xb0cf999567f00e73, 0x4c8f9cbe69f0e827, 0x9b5cd09e36d8be62),
    (0x171f528ccf658437, 0x5a39768c480d61e1, 0x3af5bf77c1c42652, 0xafea99a2ec6c595a),
    (0x12f4175c4ab45afc, 0x196e41859b35ef88, 0x812c3286ee700067, 0x5a0563b9b8e9f1d5),
    (0x3a509e155cb7ebfd, 0x8f8fdcf800a9ac69, 0x7e23e1aabe96cfab, 0x0e74d4d369118b79),
    (0x10f2a685df4a27c8, 0x1a89920e2504c3b3, 0x984bc8f2e4c1b69e, 0x98712c65678cfd30),
    (0x4959043e2135e038, 0x9ed8c6f81104cb63, 0x90af37d616015a88, 0x1ed3363404687f05),
    (0x52bd4073f5f90044, 0x8262e371dbafcbba, 0x1edc155f03bf7f87, 0x1c47f08dae05fddd),
    (0x09e5f49790c8a0e2, 0x1d8d93d54ab91a0e, 0x54573c9333c56321, 0xe8a16728cc9d4918),
    (0x352d69bed80ee3e5, 0x2bf35705d9f84a34, 0x42d17ed6ee0fab7e, 0x609a740347cf5fea),
    (0x058ee73ba9f3f293, 0x491562faf2b190d3, 0xc634debd281b76a6, 0x3a758af6fa84e0e8),
    (0x6184c223124d658c, 0xd4760ab3c3b96689, 0x47b12f279437ccd3, 0x75ef855b3d999798),
    (0x6ea989c63c451341, 0xc91afa790b6f84c0, 0xfff8d09680344bc7, 0x434998dfc696c115),
    (0x57f4ac045fb78ade, 0x81f9196c9db8a7ab, 0xf8de139c4a488a06, 0x13685982e8121812),
    (0x6dbfdc64a545237a, 0x88ee79c1752a74ce, 0x767352b5071a0d31, 0x7c5b49e259491b94),
    (0x232f99cc911eddd9, 0xcd0f1fc55b1a3250, 0x092cb92119bc76be, 0x621a132510a43904),
    (0x201beed7b8f3ab81, 0x86c22c6c5d4869f0, 0xf9efd52ca6bc2961, 0xc3b97c1e301bc213),
    (0x4b99c756e1e0b949, 0x1a082e28c55458cc, 0xd5e97eb59381fc87, 0x2223d9e77ef87b2d),
    (0x1376dce6580030c6, 0xa1c9291d58602f51, 0x29388842744a1210, 0xbf6b3431ba94e9bc),
    (0x1793199e6fd6ba34, 0x2b3356c38238f761, 0x072ba8b02d92e722, 0x6454843c5486d7b3),
    (0x5048857b8872cc1d, 0xe188947dc3ee984e, 0x217d264c7975256f, 0xbfc74c8721472d98),
    (0x5c772c20fc285d3e, 0x1854e3ededdd5294, 0x2cd9b61c7755fe46, 0xdade9f89de8b3bbf),
    (0x6e40d518ae3ce6ca, 0xd092e810909a916c, 0x60fe77dfe7bbb86b, 0x5bfcceba1ae18879),
    (0x22de7a7488dcc735, 0x9fee9c20c87a67df, 0x3c66160dc62aacac, 0x06a3f1d3b433311b),
    (0x3514d5e9066bb160, 0xdf8ff37fe2d8edf8, 0xdbe0b77fae77e1d0, 0x30d6e3fd516b47a8),
    (0x30cd3006931ad636, 0xf919a00dabbf5fa5, 0xff453d6f900f144a, 0x19377427137a81c7),
    (0x6203ad60b0341baa, 0x14e5c48b915f6b41, 0xe4959835d1a83999, 0x6dcfc378b662c474),
    (0x71e8d0ac035e59bf, 0x8007c0f3af24de07, 0xb674dae77042ae7d, 0xce7ae94770d76254),
    (0x253d1a5c52934127, 0x41f81a5cf613c8df, 0x8f9e4b2cae2ebb51, 0x5b6a74220692b506),
    (0x035b461c02d79d19, 0xa35e9613e7f5fe92, 0x851b3a59c990fafc, 0x73f666cb86a48e8e),
    (0x44476886a8f10f58, 0x9800c8e3956f5f26, 0x648da4de0e86f19d, 0x35b334977c0fecc5),
    (0x23a9928079d175bd, 0x5bc00eedd56b93e0, 0x92b1283c2d5fccde, 0x7cfbf86a3aa04780),
    (0x13a7785ae134ea92, 0xf1594a0763c611ab, 0xb5e2ea3436eef957, 0xf1e4ccd73fa00a82),
    (0x39fce308b7d43c57, 0x4962ae3c0da17e31, 0x3889c57863446d88, 0xbbf04f5252de4279),
    (0x1aae18833f8e1d3a, 0xc0fdf01662f60d22, 0xbef00a08c6ed38d2, 0x3b57e34489b53fad),
    (0x1a761ce82400af01, 0x8b2e80c064fd83ed, 0x27c1b3fd8f85d8a8, 0x55513e033398513f),
    (0x64df4c0ecc132a1e, 0xbf553cf334d88ed8, 0xa7ef1ec487821005, 0xa4e385d6fae179f0),
    (0x47940c32599822d6, 0x7897c4062665e156, 0x87220d2c5ce5713c, 0xa1ae44cdbf452141),
    (0x275a03e45adda7c3, 0x16dd1a87ca22e1cc, 0xdcf6af2830a50287, 0x5244ca749b73e481),
    (0x2e5a10f08b5ab8bb, 0xeb08e47e5feabcf8, 0x07e561453fc5648b, 0x58a253cfb6a95786),
    (0x6b4216c76c229946, 0xeba0b6ca567a5e01, 0xefef1919cd3424a1, 0x61477bd2d2cdf30d),
    (0x1459cb8587208473, 0xb84e9c333b2932f1, 0xc141a5b6d594bec4, 0xe033d82cefe78ce3),
    (0x193ae5921d78b5de, 0x7b92ce810e14a400, 0x52f9332fbffcfbbd, 0x5cec7e7b338fbe1b),
    (0x3097898a5d0011a4, 0x89111fb2c4660281, 0x374384f4a0728205, 0x60224be67248e82c),
    (0x378d97bf8c864ae7, 0x571782fd96ce54b4, 0x1979b2d1c465b4d9, 0x549980de862930f5),
    (0x47e939590928513a, 0xaea5ca5fda898a41, 0x734378eabcda9b48, 0xadc35ce03f59d08e),
    (0x2eb04ea7c01d97ec, 0x88136287ce376b08, 0xdbc7f5cb46093421, 0x37ea32a971d17884),
    (0x668a95bddfb87873, 0x2be2633ada541e1d, 0x1e163418f3ebf823, 0x16f64b24ab49cf05),
    (0x57ff77ffd3ab3372, 0x985f839e7cd61fae, 0x628a683f22ab2452, 0x56260a46ba14b26d),
    (0x4e185328f8228371, 0xb8957c496316b4fc, 0xfd3c1786cec9a1b8, 0xf855edd27597e7af),
    (0x36425347ea03f641, 0x2302a1c22e49baec, 0x861cbda476804e6c, 0xead3726f1af2e7b0),
    (0x51b825d33b31b018, 0xca3d3590dcc9ca41, 0xafe09f699191c41a, 0xcdb5b3ef7e617b78),
    (0x26b72df47408ad42, 0xcc996cd85c98a1d8, 0x3f5b5ca5a19a9701, 0xecd627e59590d09e),
    (0x629f82ef3b843d15, 0xe5e67fbab2857f76, 0x65e39a2289df756e, 0xf82eda0e3baef82d),
    (0x57da05c9a95902ae, 0xa1b804e493ea27d6, 0x61a36e5bd630fbc5, 0xb2565b42c81678df),
    (0x65bb185aa22d4a6d, 0x0b9741e936b955bc, 0x6322fb749f73c9e9, 0x5466747ca7d79dec),
    (0x130180e44e2924db, 0x1f05636c610b89aa, 0xde01212ee4588f89, 0x59bece31f0a31e95),
    (0x219e97737d3979ba, 0x73275acaed5f579c, 0xdf7793cc89e5b52f, 0x9ea8e7bc79263550),
    (0x4043fd3082574e57, 0x73a8654e32dd4190, 0xa6728be3fc54fab3, 0x644532e1c79a1800),
    (0x5784e5360ffb6781, 0xd9cbc1df6bd8549c, 0x71d81f000d5c4d2f, 0x071dc0f28a21c720),
    (0x3cdb93598a5ca528, 0x3461363f81c489a2, 0x3b0672dd7d42cbb4, 0x9c12635df251d153),
    (0x0e59e6f332d7ed37, 0x20724b927a0ca81c, 0x4ad0447045a7c5aa, 0x2861ce16f219d5a9),
    (0x57afcf069f3680a6, 0xddcb3424ff2ab8d1, 0x38a48f0fa72fc062, 0x86718f66cfe1df08),
    (0x51ba5d4899d7835e, 0xc1a17fb1bc710169, 0x0828fd09ec92e732, 0x769a61f5f0c66085),
    (0x1b064342d51a4275, 0x3d7369467222697a, 0x172cc07b9d33fbf9, 0x43b0a3fcff2036bd),
    (0x54aef45559da8b2c, 0x7472c3ad5a0d3308, 0x6da6e4df67ef4ede, 0x874adebb2902df82),
    (0x30b82a998cbd8e8a, 0x2f363c55b2882e0b, 0x78fa9fb9171221b7, 0x3eb310228a0e5f6c),
    (0x523a56f81ba90ef3, 0xa40ebdf2c848c8ab, 0x1a6c9889ac6c78ec, 0xa8147a560db320c5),
    (0x4fc581cc0a10b8c1, 0xd357e215fe5c7ec1, 0xd3a0931cad9a575d, 0xa613b282fb1fd4b4),
    (0x23e4ab37183acba4, 0x63df7a76e858a4aa, 0x8ad71ea715be0573, 0xe46f6d4298740107),
    (0x2795d5c5fa428022, 0x5d33094e0beda75b, 0xacfe14640de044f2, 0xfca995e2b59914a1),
    (0x3001ca401e89601c, 0xd765f26dd03f4c45, 0xa6687c3df16c8fe4, 0xc26d909dee8b53c0),
    (0x0072e45cc676b08e, 0xf7bf86e89280827f, 0xe84b5bebae4e501d, 0xe7fea6bdf3471380),
    (0x522338e1bf861c22, 0xcf8eeaa5d060db37, 0x420d3020e1713cf6, 0xfff6f239e30cbfa7),
    (0x6fde059ef86c70e4, 0x57aabb383afa5baf, 0x09088f95fd8322f9, 0x57b618dd020277ff),
    (0x13de705484874bb5, 0xe2abe4c518ce599e, 0xb64829e2d40e41bd, 0xd0c54ddeb26b86c0),
];

/// The MDS matrix for BLS12-381 and width 4, row after row.
pub const MDS_BLS12_381_T_4: [Limbs; 16] = [
    (0x298b7c2407511920, 0xd8e2f173fdf03c8c, 0x80d841a04def19fc, 0xfe701369758527dc),
    (0x2c58f3708d5295f3, 0x9bcf9803995ec483, 0x2e8fb6ff53b6621f, 0x7ca8b86f916bcb5c),
    (0x5914b33fd35224fd, 0x55471ad751fc62b4, 0xd01db650734d8516, 0xdfbec88ab333893c),
    (0x5c49e1934862d807, 0x904970e1a178b323, 0xcec2d0f7becdc108, 0x2ebd56a28193318d),
    (0x0145e8e03f232af2, 0x59daf27a7bf6d87e, 0xef09ad0c6a5070c6, 0x529f86fa18f8cec5),
    (0x4024abec6f929bfc, 0xf86216af1568a890, 0xd33803dec7e3c584, 0x942271a56b82ed74),
    (0x39602b2f398221ff, 0x9fd51bef6f9bffef, 0xdf327c657471629e, 0x44f9ac0d3be2dcd7),
    (0x4aeb8c69f52f416f, 0x5b4705b3a73a4a8e, 0xdd8d681b3ba64ac9, 0x1a76ad9b03a4f039),
    (0x2d86f821617e6763, 0x543bb9d8d5d6ce12, 0xf8f983aee87876ca, 0x82b3229cd0921da6),
    (0x6b123db55b6972d0, 0xd81a3741ac42d704, 0xe14707d98f976fbb, 0xcf347b6e4d273cae),
    (0x59c978e04431e87e, 0x06089bf64592992e, 0x8217006ee9bc5a7f, 0x4cdd9e9bede7087d),
    (0x3632327f99c712c2, 0xa1dc345fd77ad7c8, 0xbdbe1cfc6de3aefd, 0xfc4579ff841d2c91),
    (0x469c003415373e6c, 0xb7df81d0937384f6, 0x717e951d1637a0d1, 0x0347e4cdc4a887c3),
    (0x29bea5c6b354f599, 0x88897aedef0ea530, 0x81c7a0a00fe174c9, 0x4e7e12fd7841d1ad),
    (0x67e972fdcdf41ab5, 0xed8393284aae6906, 0xa682f63995f65eb4, 0x71f87f55c71736e7),
    (0x224fb6ad78d91f53, 0x9e305b31be0dcf2f, 0x3ca958a21fa4b124, 0xda21f7ad7da939e8),
];

/// The round constants for BLS12-381 and width 4, round after round.
pub const RC_BLS12_381_T_4: [Limbs; 256] = [
    (0x1a3bdcbfc11dabfb, 0x6ed0dd5f5a9b3819, 0x1488bce9eecd811c, 0x10f9378b32db8c61),
    (0x52b733e857912fdd, 0x2248dc9638dd79b1, 0xce18b285b2779223, 0x8b44c2b23c0f5d5f),
    (0x47d6df02d73e6c78, 0xced550ec8df1a459, 0xac41f318d8b904a3, 0x7652b581b2b766b8),
    (0x11ec284726dddcf3, 0xcbb2b81862c9cd95, 0xe9de81ce0317302e, 0x1ef432d59b913388),
    (0x19e21d749905904f, 0x3e10cd57f7817c25, 0x64c06ec1b1e229de, 0xf2129e79a7a77738),
    (0x6eeecf4c83e1ec16, 0x4217f3c00956d83c, 0x3bd845bee2d86b26, 0x3cf3bf89a345e5e1),
    (0x10d5808ab47295f7, 0xa950dc72f968398b, 0x9c67426a217811b9, 0xbd7e97f2a261992f),
    (0x25d334fbadcbfd26, 0x449c4ce1472f961f, 0x7d401a3ddf40a70a, 0xf5c10ac9176d151b),
    (0x3ef8a46ec07ee551, 0xecba60b1601cbf6e, 0x3664418331a25472, 0x9b7c6a5c3d13a6c6),
    (0x30d373e298c09d2a, 0x6efe661d708fcfa6, 0x163dc61ae1eb103d, 0x98cf88c63e482125),
    (0x18769839949b2dda, 0x9ef3f111acd86e10, 0x250ffad4c4c4263e, 0xa970e4f4726cfad7),
    (0x2c941286d1534ff3, 0xbe3a66f9dd59833e, 0x65b1fa67db23511f, 0x7b4b2ae3b3d66bc9),
    (0x08b6d9c90b4139ea, 0x70497ac8a22b30fb, 0x9b76b8ceabf70449, 0xd282b57d98c60ddd),
    (0x3a8a2dd917222a71, 0xca678b5c0a803a43, 0xc62de2f2c9fe3793, 0x1b5b2a017fe64638),
    (0x2dc17308abd0e731, 0xb3cffafd296cc3e6, 0xe2403dc563baa1c7, 0x97a68da9754dd207),
    (0x1d04e542f54431c2, 0x3f9d1812392a0c87, 0x203144e343c459d3, 0xee640b04e203be6c),
    (0x500760e2ef6bf463, 0xfdecbf7b47f4adaa, 0x8214c797e5935943, 0x9d63169e1cdb9dfb),
    (0x61f36faac1c12d75, 0x6dcc3b5491f2b225, 0x65409a4e952b8f8e, 0x726ee126c0e1c0e6),
    (0x49e72db524a48243, 0x849fea068e58d0c0, 0x78b0c738cd482a2e, 0x2160602657456ccb),
    (0x4a74677fff94821e, 0x97b20b86063c36d3, 0x5c6a2908c0a19a9f, 0x130edde9c8ceb6b5),
    (0x62d27fd5080b44a4, 0x36e13066ce1c80dd, 0xef2af086c2a4806b, 0xd99fa02de9726ded),
    (0x15a26c92fc51dd28, 0x5a61c2c1379f6731, 0x377aeb29c62696aa, 0x6a9c109c2991f200),
    (0x1db900a5e9b2685b, 0xe9f8f02498123ac7, 0x1bd7bfa40b6853ab, 0x527a8d2512b9aefb),
    (0x6ff755d237742498, 0xe0b78829cd8358bd, 0xb831e96fef08eb19, 0x2b7e334123080afa),
    (0x1595447e5b94a64c, 0x8b3681f57068e19e, 0xe3696440ef785e35, 0x123886311f48cd1e),
    (0x2b0eabc08eef3aba, 0xe3304cbb2efc67e7, 0xb437bd96b6f7d175, 0xdaed6da5a2144e8b),
    (0x3a345ee8e715f322, 0x6e52838652219202, 0xefb4e6d4f057f904, 0xd69d3fbd781e39f5),
    (0x49eb2a07b5da81b5, 0x7b7aa4fab19e691f, 0x9a684baef4cfb5af, 0xb6f46d23cbf1a9cd),
    (0x3051663ef7de7674, 0x506f2c8734097253, 0x63849564815b8bd2, 0x91f00b9c60b4daf0),
    (0x041a632a7bc167f6, 0x7ca9c3825021a05b, 0x13f81f814ee101d3, 0x7716e12efec3121f),
    (0x6a5ae006b70bfebc, 0x1a485eed2c078654, 0xdc0f10514e8c739c, 0xa2a7019f42444ce5),
    (0x0f3dba730b64dda2, 0xbc2eaa50ede0fcaa, 0x86a37c74c3a17be9, 0x7a9d969fca21fb37),
    (0x6d6c02004f2a4cbb, 0x965f9e73799041fa, 0xfb49f61aee66232f, 0x45ae09972af08e86),
    (0x60391f436a32fdb0, 0xeeba8578313579c0, 0x4c48c126f4eb6a0c, 0x49e249ff1c1fbf4a),
    (0x570a30710a42539d, 0x4440ce9a2cc7d9ac, 0x102409a188960d0f, 0xbd249fc4352bf3e5),
    (0x35cb6ce553525993, 0x32471ad8be46ddc0, 0xcf598e0e36b8a8fa, 0x5fae6f26277b318e),
    (0x48a8116b254b1710, 0x52251f353c93ca38, 0x16734e4e0baeea10, 0xb4269bbab9a2be55),
    (0x126258211a4bb203, 0x5121c7ca129eae71, 0x9d4ddfefa99921a8, 0xbefb7a160e0f845f),
    (0x5bf6985473bc5500, 0xf140844f5b66cea8, 0x5815772cce03596e, 0xda60e6c7dcb4ebbd),
    (0x5af46d3dd02261d8, 0x93c418582188d328, 0xa8a84ff8f6ac6c19, 0x97d3aaadf64220d9),
    (0x5e3c84925609016d, 0xa58df82c1f2b5159, 0x0e3b91e5502dca2e, 0xba13d8354916ddbe),
    (0x410e6fb4390379a8, 0xb726cfb22a9eaab7, 0x232bc4b60eaddb62, 0x9a4aacfc7dcdbfcf),
    (0x2ca5debb9de1c4bb, 0xfa0204543dd97572, 0x41611cd28b5eac2d, 0x7f37baa293fa2618),
    (0x4a1554023154a99b, 0x4572572ccd5d89fa, 0x8745c117a2a85e57, 0x86ef6ef39410d611),
    (0x2ca75fb22881b238, 0xb6c96da6b908f922, 0xda8b54f909237051, 0x775c64fec8d5920c),
    (0x546ea8ad3dffe14c, 0x4c96e4d6d8c43c64, 0x4212fb663486165b, 0x34cb26ddd717f341),
    (0x6b168ee87f2c532e, 0xfdb378116dfe462f, 0x632a18eccf1e9bcf, 0xc740d35e535b2735),
    (0x4cf917a780b85029, 0x2f44502b80865d36, 0x64d75213f89e8ae5, 0x861dbcb52aa95e76),
    (0x02e8dfe9046d8b95, 0x1532466bdf1b6257, 0x1b85e551b34c8bbf, 0xb1ccd3216271b73d),
    (0x4a34d2abd01f09f7, 0x43cc56a3f87febd6, 0x0ae5d88e224918d8, 0x40656da973d9252e),
    (0x0a3fad26c6318d47, 0x1fa376fbaf02d341, 0xe41e687db6f3da88, 0x266de21c7157e940),
    (0x131c9df7176eadb9, 0xaf3a14f0f53a9b87, 0x196ef60bbb89b363, 0x0142ff8d9d69137b),
    (0x5753682a8120106b, 0x42241c86deee8792, 0x63d81fe8e3423e01, 0xf567316d9524647e),
    (0x5ed9725af6a91090, 0x027acfc12100733a, 0x9dea89771048aa2d, 0xfe40daea9546645b),
    (0x2c7b7a87f31ebd24, 0x64be9f211d41719b, 0x453939d53ff7be07, 0xa2cc21741d48b467),
    (0x118159eb07353fef, 0x60e9733077cc82f9, 0x2a6e2bd361c88d81, 0x22e9a292217757e0),
    (0x5b4626e787d4a4b0, 0x0ba4693fd7900eca, 0xa19624be9f2fee6b, 0x9c3b538d4f896b8a),
    (0x18cad22ae06bb0e8, 0xd043f7928477219e, 0x4d38ac544ce81c4c, 0x685267089e4c7003),
    (0x0511149594758e78, 0x9b440ce534b52b6c, 0x508ae1881669d1fa, 0x4a7e551ef84e4dc4),
    (0x428b8532efa194a7, 0xf5cbf4c296786346, 0xddfcfe8f2bab26f2, 0x5321f5d984dfc307),
    (0x00fd035cc129e91e, 0xac66d841e2864989, 0xd1ff485366216614, 0x3535603bf9460621),
    (0x2c16756511447541, 0x2c76f0df1961eaca, 0x9deb17622c9fb6f5, 0xac8a89a29f42df69),
    (0x10cac3ff02125419, 0xac84ff80295589d1, 0x124a1e65a94e8d9b, 0x63a411317c7f5728),
    (0x7213c2f17aec536d, 0x0a5196e877d1626a, 0x63d7db5b4e3bd773, 0x27eb3617b932aee7),
    (0x1b86ee2e45fbcd59, 0xfa43edee6630dda5, 0xcb3b894eb4701eff, 0x5fd53967abad2666),
    (0x0b941850091bd168, 0x75f408f183fb93d2, 0x50c538e5ee1e8979, 0xe960b5b499b2f070),
    (0x031f75d53bdd5ac6, 0x03c252925148a74f, 0xa5f3bf5d9ffabe64, 0xc6e932be904204ec),
    (0x55296a48dd399c65, 0x798cdbda11e89f26, 0xf998f2d33cf328e8, 0x7a1c364e05be492b),
    (0x191175ec337e64a4, 0x8785a08355917616, 0x8bcea3db2822630c, 0x48f1d497d03e1e35),
    (0x33200b518e6b1a1e, 0x96ba214cad18929e, 0x7f5b4e3336e522c5, 0xfa1febf69c0818c6),
    (0x2f989e24f97dc06c, 0x075bb53404e3eaaa, 0xe32a1b6d89d9e09a, 0xcdeee65712aa4216),
    (0x0de4b77163f1572b, 0xbaa325f48bde7a42, 0x9b6b0f803ade45a0, 0xe72cd2bdbd84680c),
    (0x6af270d408f49240, 0x2b7271432b6c443a, 0xbbd1f0e220888d73, 0xf47498d59044d7cc),
    (0x3d5b5310e7b6be63, 0xbe8f12594ecd6810, 0x8f4b3f6266683b13, 0x178d0c80d8530c2f),
    (0x5f69d748d06e2291, 0x6088bd21fb472334, 0xddbe5223ff494b6c, 0x0dcdf62db69d43ac),
    (0x6c1fd7dbb3298da8, 0x6dfe5d0435b26e0a, 0x91fe6ad6aa25b940, 0x7d5da544e6b9cd27),
    (0x37172dd49bf14ebc, 0xa52e1c31b60f31de, 0x8213644e330bcf2c, 0xc59684606e62537d),
    (0x509cf829b68e5886, 0x1c3d6bce6046ac1b, 0x6e9c065378fe9556, 0x348c0c1814808e20),
    (0x529d5dd132f5cb4b, 0x71994ae6b330b794, 0x4f0fd8ba319582d2, 0x414b9b10768b7448),
    (0x5d251391abee2288, 0x33dbd24be99d163b, 0xa9f8c92a2cf73a4e, 0x1f8a87e9c4ca97ba),
    (0x1abe1d77226f2eff, 0x6f1a6bfc6c8d9e00, 0xdde1da9d67858e69, 0x84e53bc2aceba535),
    (0x4ca74ba72baea6d8, 0x4fa8f2a05e387a1c, 0x41a5a1b2f1a479fb, 0x11bbf9d5e09bd01a),
    (0x232bfa6a31202248, 0x14967315ebf3d8c8, 0x8b2eb0ea8c20c79c, 0xe854f90aec7a9b91),
    (0x109f5bd722c8cf28, 0xab6a3852970bcb66, 0x5f398a8dc9d33195, 0x8dc291d49a1ba9b4),
    (0x4a181a5de6c79a05, 0xc02533350ab51dee, 0xe24b8f5b9154c5cf, 0x09ba5e25862ae176),
    (0x6e063b99c16028df, 0x94b1eb719164ae8c, 0x8336894791516ca2, 0xc37c5a1a394bb0d7),
    (0x6bbd2d3a643d301d, 0x25a8cf156542165a, 0xbee3039068fecf50, 0x1e9d39f313ca2a87),
    (0x04690fe1be7c7b8c, 0x10c81e63f5e508fe, 0x93853c61f0435f81, 0xeabc9997fa3b99f3),
    (0x6184e3be38549f7c, 0x0850cd069b32f6de, 0xcbfde312dd4b8c18, 0x349b1b3776a6eaa5),
    (0x419289088178ad74, 0x2be6f78425c0156b, 0x6546a18fd338f016, 0x9937dea46cfb64d3),
    (0x3244cdec173b71a4, 0x659e2529b499362d, 0xac10cb2fd1756286, 0x0c8bb9d0fd45b788),
    (0x0f0c981dc7da9014, 0xf7fc767217acb02b, 0x5660e6f965da2f9d, 0x27c0f39aa96ffb05),
    (0x3eb3e451848da858, 0xf19c49a5e8ed6458, 0x68f7c4ff3936e727, 0x64de40a1dcf74994),
    (0x2b22aac0b5767e14, 0xe35e2b77cc2be87b, 0xdf54b14a37fba4fa, 0xf110e8d07356c8b1),
    (0x3085943bfb509169, 0x7c781c1f9681a031, 0x6bbe5bc6153b56b8, 0x8bb61d3574e18113),
    (0x013fb15ec707fa4d, 0x94eb197f2b826652, 0xa42d8c7e3a6e3c65, 0x1c7d1384534c8f7e),
    (0x52e0cedcd2eec16e, 0x0272821b105b5941, 0x5e283766123e1141, 0x78372c00af0af328),
    (0x38a026b4999d31f9, 0x2ca4a4778f3833c1, 0x56649acaf6163190, 0xc89e33d4285e842f),
    (0x53411fb4c845a384, 0xb36c21a93d78e617, 0xb8e708fc5f3dfb25, 0x7f2bd08a692ea7ca),
    (0x02d3beb65776c1ff, 0x767423cfd89e0a11, 0x14e75d6bc96a45f3, 0xf767301ba78a3d24),
    (0x01ef50f896ea0f71, 0x59a64872cbedde17, 0x0e16616db53f0c73, 0x8c09563f96772173),
    (0x289ac68db13fda85, 0x6d5e507ec2d9dfc1, 0xe2d343fa2ea66b82, 0x2446ea3dbab3ed86),
    (0x2c58ccb44d61ab30, 0x3d49c1c30a1e4cd0, 0x7ad9fc8b7f3f0d78, 0xb7bc5745c9b711ca),
    (0x15e5a3baa7062453, 0x7828a7dbf0647e0d, 0x7507435e339e4138, 0x91ace5f29ce078eb),
    (0x0c14cf170ef55738, 0x50d0d8f285de9fe1, 0x7c6e779c821d9913, 0xa113739da39e8e04),
    (0x277d88816bdf7241, 0x161fa38bcc427aed, 0x769613e195e72ee7, 0x0629f35e06659d8e),
    (0x465aaf569dd9d062, 0x6ccf3ae12f493ab1, 0x8cc00524b9946733, 0x0578640771c67f0b),
    (0x33afc46c06564f1a, 0xf1ef0da4dd0c4cb8, 0xef0766c819489f5f, 0x37f2c228f4307e3e),
    (0x5023f7a4ca1254c3, 0x19cb8f70a62c2168, 0x662ea78d1135df69, 0xf0465c7392022262),
    (0x4a9587a2f2ea56d0, 0x3fc4b8046bd808c3, 0x7381f4bea68a3be9, 0x8ef922ed458c56d4),
    (0x0b8485fdb3cd8176, 0x0bc9e4d26725a140, 0x932b272e1e9d5296, 0x298e5f869a89b9d9),
    (0x5eee00a428b0a4cd, 0x96af0558c4ed70ce, 0x979826803185a912, 0x38114ee9b8c4be53),
    (0x27d52926466fb81a, 0xab2ca23653f180ee, 0x3f778df5a835576c, 0x44184164f6ee2307),
    (0x207a46740586ec29, 0xdad6aafb56b20c26, 0x8028b717d466ff36, 0x264a114eb4435622),
    (0x341290e81ba29124, 0xcdfb288e68f9efd8, 0xce7369ac1fd8602b, 0x4f9510176c63aa14),
    (0x342facb077572209, 0x7b366a3e5878d0e5, 0x61c0692817a93897, 0xbaeb6707f992564c),
    (0x593025dad9d92e7f, 0x05efdc0b13459910, 0x50ceb5428c265531, 0xd3e61dbfb92793a3),
    (0x0a074e297087d243, 0x24f072add6e52960, 0xb151e431af10a9e4, 0xff7ebbf0ad7fc3e2),
    (0x2bde7ca24f10248d, 0x0d6cfe61f10a55d3, 0xe44a2868c51781eb, 0x24a2fcc1d1752de8),
    (0x4c21a64ee9726ae6, 0x76cb9349f6a9bb72, 0xd0c3585b306439fb, 0xd0206cbae2ef49c2),
    (0x0bdbd65303f4bf43, 0x32d764d4ef1f9132, 0xb562c58156e28043, 0xe9c18247e6654fc7),
    (0x28c3fdc637cd545f, 0x5039fdc9c395771b, 0x87ee289530688b6a, 0x35a4589febded074),
    (0x2da62c361f104573, 0x017e1013d5bc837a, 0x0ecece8e2e2375b4, 0x94c9018ee9c5c7d7),
    (0x03ab1d4fc536f0bc, 0x1c53865c7e1bb29b, 0x59397147da123e8e, 0x0262ff0e51d1ba39),
    (0x2553a916ed677e8e, 0xbb39052d86622b2b, 0x07e8da35d26e822f, 0x95f179626273795d),
    (0x0e82d473f428dffb, 0xbc932a2a0219ac2e, 0x69d55f10797dfe00, 0x42f41343d9a5a5f9),
    (0x54d65d44a008fc60, 0xef7dbeb22ddda4ed, 0x4ba80e4f1f3ef28e, 0xb3e43eebdcece1d6),
    (0x37e62d7a988a3091, 0x7e0c59ae31baa0ef, 0x4f573bdfadbbc3b2, 0x6cadb6a7de1a3884),
    (0x0f5013e2713cc048, 0xf3e8c06870ceaaa0, 0x68b0d58397642ead, 0x9827b6808a5b7f2f),
    (0x43c6e67e0bbf538c, 0x2b32f6b73e7c1701, 0x0c358d590fda5b0e, 0xd17377d7582fa8be),
    (0x2d3f5ddab40c0c88, 0x94c83ba5042f62a9, 0xf86a204921688eb7, 0xc164aa4ca5ba6aed),
    (0x2e6c3d033a391929, 0xb20bfbc85e8c3736, 0x870ca1b93c739300, 0x2c2cc60e4767f302),
    (0x6a617c79cb8f0377, 0x43ea4f37790ee655, 0xc9f5e14c17059dd2, 0xb15d217592275c56),
    (0x49d75e2b7372189b, 0x23f2dc62c5bbc6e3, 0x251da52169a7dff3, 0x539ebcc7efdcb1ca),
    (0x2854379bd77d9dc3, 0x7b4687c2e0d6d4f0, 0x830ebcbcc478fded, 0x97b6861d0a239fb5),
    (0x6c0472347716685e, 0x5e341e4dedb6018e, 0xa6ab2d2068d75648, 0x947995080599cc44),
    (0x609ad724c3d3b348, 0xbfd03d161c47d025, 0xf58d228226225bd4, 0x942b7ed8f1e2bde2),
    (0x4ff6cc844e1e93d8, 0xdbf7268976ab0a8b, 0xc4aa09c08300f702, 0x6dfdb3bf7d975f2d),
    (0x1117487e5f2e2a5f, 0xce239e86574f617b, 0x6e28d9744b8058b3, 0x2a02b3649f7c1335),
    (0x0eac1e00309bb6fb, 0x6206ae31fa0a57ae, 0xc5aa0b3312c44e37, 0x2918963cd07b14da),
    (0x4bbd8ee98533cc0d, 0x8c90031dae91db94, 0xec1ac78fcd19839f, 0xc680395726fdbfd3),
    (0x33fbfff73e78f27b, 0xebf149877ec02c4c, 0xf9e49dacfed909c9, 0x880b2c53ae3ff02c),
    (0x40d4931fb1817a1c, 0xdfce3e28c48f4236, 0xb55a943369d2412e, 0x3f6a101690b9975a),
    (0x52e1e8e935b400f0, 0x0ba37de69829ea3a, 0x772a82bc814040f5, 0xdc5537a419c0cf8d),
    (0x72ae1bf7b2d1d8a9, 0xf831a4a6f4d37fe4, 0x0bcf86a490f408c8, 0x1e8fcf2571055c99),
    (0x03be520dd2ef2d68, 0x7d3296dd9216ff3d, 0x27136fc691da2c8f, 0xbe4cb13c92c40c0a),
    (0x71bcc7b912efabfa, 0x4a61ad6b4ba27b03, 0x0e35d45a23f4c908, 0xbebe0192d502dfeb),
    (0x34eaf350f1df9921, 0x8f9778d445e748ba, 0x4df04367643fefbd, 0x08f195e6f1f3d1f9),
    (0x08041eacd9bb78d0, 0xfd0bc93a6a27bf3e, 0x784abb0b8be4792d, 0x3e558e440de4921f),
    (0x169ce0ec6424a32f, 0x14c4a7c7a2977a98, 0x1f83d2c464e487c7, 0x95d4ab196ec2d72d),
    (0x4767b051e5b6358f, 0xd12f217aae53bb9d, 0xcee10ba5ffee68f9, 0x82209f5e5bb27f53),
    (0x2a59f16a37626bdd, 0x5536c5546f046b60, 0x8c77773499010399, 0x6730611728cfef22),
    (0x6388405f3a1e87a1, 0xfd3183bb12a89c71, 0xd5bbeeb0e4b73c22, 0x7b1d840f217ee15e),
    (0x0e7c7e19ad92352c, 0x35e4d302828f64de, 0x68750dac64cbd944, 0xf0eba6c0ed003758),
    (0x64993873a0f0be13, 0xc99fb146c2e915e9, 0x99d2bf162b3c96c1, 0xa218e858d5372df2),
    (0x44beaaaf96f7523b, 0xeaea3f87c4477b82, 0xff3e106a73700ea8, 0x09f6fcbc49647758),
    (0x25ac368f880eac42, 0xa093bafbc8833e37, 0x0a05c1825a410f01, 0xab33a3b566f3732e),
    (0x41398bd829e078ad, 0x91e5f397a8039994, 0xc3023c18dc9912b2, 0x71299ec416e0d76f),
    (0x7011bcd0823f63e0, 0xe21e314fb19b2571, 0xfc89ada110d1db89, 0x977dcef4de939b38),
    (0x32baebb570a42e0c, 0xcd32fe3ff9b1b09c, 0x83d2822fadbfe582, 0xf7b0d3e6c840cb63),
    (0x66993138781f8f72, 0xa8591a00794ba3f4, 0x83961c1365cfbce2, 0x66da90dfc6710f74),
    (0x358746a6e7a2896f, 0xf624028f561e6072, 0x04b04930f4a9c7bf, 0xa74a82e28b620ae0),
    (0x6004b2a99aa6b5e0, 0xc1be60af96a50009, 0x64412424a13cca7c, 0x6b08b3003e736d52),
    (0x66f2d38846b6ed10, 0xa74b57f9ebb407ec, 0x20ba831e6be6bcda, 0xe1a7baf96bd25bf7),
    (0x34a713c5af020dd5, 0x21c31be022499e2f, 0x82fdd371f19c29a2, 0xec3de1154d8bc7b0),
    (0x0d49a2065f03a8c1, 0x1d95cc343b9b5033, 0xf5f686aa59dbfb17, 0x0324db722d2fbe8d),
    (0x50f0c5fcf8569429, 0xf071f26b49b6141c, 0xd13a0e2ccad0f1e9, 0x077794ad0b7bfc99),
    (0x18baf0e4466fee84, 0x9f22f1f5d334ce97, 0xcf29696e4ebe754f, 0x18c5def882543bb6),
    (0x53d67dee903d495c, 0x85ab072fc63a0024, 0x65493299a8c7a093, 0x40d71be619a26474),
    (0x1d9411b797909021, 0xc59edeb51d199108, 0x15a7e024f3be0aad, 0xabf4281ceced8ae7),
    (0x3010bd38bcf15584, 0xed5ae8848c2511d7, 0x2a0e0d8f77efb64d, 0x766b4725799bec63),
    (0x6250ebae2258403d, 0x25295d2fec85b464, 0x835aaebc7c270f78, 0x6916d941492e7671),
    (0x42cc150368b523d1, 0x8c0f08fc560a984f, 0x6f30d33db022f8ed, 0x231c605d89356fdd),
    (0x053495c35de399f5, 0xc76d31c9854b6315, 0xa307033df510ea93, 0x7d8e7f6dd6e79736),
    (0x2ccba4c1efd750b5, 0x2348fe2984d8a69e, 0xc8082de22c0cb78c, 0xef7050a7acad50a3),
    (0x1f4d46563aee7454, 0x01631d9f9b5e9f0a, 0x2db7a7092702aedd, 0x214c73b1924d287a),
    (0x1da13a979f5c954f, 0x06c6cd246af3186e, 0xc0aa5647f4e1f34c, 0x9b54da6a6261c323),
    (0x28b6ee5ee05a6448, 0x6fc82612898f0784, 0x1de6ac234af65ea7, 0x5044244c0e1bc21a),
    (0x6e66acce6f6024b7, 0xc02c0a5850c73117, 0x0ab57d5254d536c4, 0x6d07ba276c88d314),
    (0x68228f9fe66bd878, 0x7bf5f93ac07c27cd, 0x393360fafaefc6d8, 0x9bedcf374798768f),
    (0x35fe00da8b670bc3, 0x06a19ea32898e2cf, 0x384380f1e1faacb9, 0xbb53fd01d7db61cf),
    (0x375ff92d4b5afe7d, 0x2b7fb35e7c2636a6, 0x1df3af40c61b316d, 0xd48c2ca613ce64b1),
    (0x55ebeca3126f9438, 0x7530dcc19aaa5966, 0xdbeba73e580f3ede, 0x6ca9c5ac9cf8c07e),
    (0x227f8c7674e8eeca, 0xade74fd162018207, 0x216976947a5f1370, 0x4fc21c6cbbbe9125),
    (0x0089fd90d4e2e345, 0xca3da05be7cd1d8a, 0xfa3528dcefdd08dd, 0x91334129d60311ca),
    (0x65b80ee6bb4a0de9, 0x238e8eb69258a9e8, 0x66defcb7ca7c9431, 0xa704f284c318a724),
    (0x2708e450652ff5e2, 0x86daf6cc902908e8, 0xcd0b2ff9f877eff3, 0x990d4f7752517400),
    (0x04ee97ab7ecba248, 0x6f642055dbc976d9, 0x36cbfecf44f64c49, 0xd2c0d66faf6070db),
    (0x0a279305ed492452, 0x58fc3b0c0573810c, 0xfbf02cac488b7ff9, 0x1eb6ab08299c6f28),
    (0x263bc79ba831a14f, 0xc803b6cb87f95ecd, 0x312836c6419acaa1, 0x2c240bfe72085954),
    (0x2591f019acbf10e7, 0xfc66a78ee289233a, 0x50a58ebb1726cd17, 0x7d7ad964dfb72649),
    (0x32c2773f2104c022, 0x0ec42766cdc01961, 0x9091c797f92e0ebc, 0xd42466334d48288e),
    (0x00077f91f954c6d1, 0x364047aeacb24d38, 0xf6ed2c8f9d874340, 0x44ff2ddaffa4126e),
    (0x43a52a54cef8b104, 0x894f9173712a38e1, 0xd71665d27f030bea, 0xa8714bcef263efc1),
    (0x20c6acbba48330b0, 0x76a7043f0549da73, 0x6dc455d09716bd12, 0x1679ea9867a202c9),
    (0x45fa00d6df85a4f7, 0x3caf321178661869, 0xb9c761d7058ed428, 0x46c2f9c15477e7f9),
    (0x570cccbbb76b5d21, 0x867fad8805aded2b, 0xaf054693bc4ddfbb, 0x331823e8dc56c542),
    (0x70a1ea57593248c1, 0x5f0b7051c1ebc74f, 0x3b6fca29239adc03, 0xeb3e5251f65b8333),
    (0x23f2a31a8871972a, 0x472b78dedfb828e7, 0x4b9e976d80f41402, 0x3c497cee71341d88),
    (0x2623a6dabd84aa57, 0xc08d945095d0b1e0, 0x386a1d0d551a796e, 0x56c15ab6c0a88573),
    (0x5a700c9ef9bbf2ed, 0xe7c90678409671a5, 0x052cc4dc96d07a97, 0x174a76794bc8471a),
    (0x5b58392e93dc08b2, 0x090ba2d961b14ba3, 0x52adabe86e469d55, 0x2f46ca8fac15f76b),
    (0x5bef7c911f1b7647, 0x6c983995d96fe372, 0x11bd83719624d552, 0xe5436a6b1accffc8),
    (0x3b9eeac5a9602989, 0xe277ac9ec0517109, 0x5ab6bc19d5185019, 0x81aa32f3fc1be155),
    (0x2d9429f2ec181781, 0x53a807e4e9555814, 0xbc771457a1cab125, 0xf71e2e95f3effcf8),
    (0x52c0c71cc0eae6a2, 0x524518214a579a0e, 0x4af10a67e609fb31, 0x75e0b9b3ef48c53d),
    (0x2d257f7f163917e2, 0x3d99c8e42aabd95b, 0x7046bfdc7a271a25, 0x554cc370eb5f9d8c),
    (0x605b93d2c070b252, 0x01097565e4efea4d, 0xa3c1035dc41a6f86, 0x0edfa16a3fb92130),
    (0x0da1fc52458b91e5, 0x860a0fea42f47c31, 0x3558b35e2ac7b221, 0x2fd607344b59c542),
    (0x6578e1f23a14556c, 0x1846c9209131ddad, 0xc5a6958a83178fcb, 0xe16aca8d0c818649),
    (0x4c1e852dc80d28bf, 0xb33893a56433d278, 0x813c99cc2bcbdc46, 0xd82fa53655bb267d),
    (0x6cf8354f4da7d38a, 0x87f31cc3fad84e59, 0x0507591b4cd9fc6f, 0x453dac185acbc4e0),
    (0x31062bd21aabe816, 0xe7cc4a2f0b349416, 0xd52c325acb366e76, 0x5e523cbc0fbd8afe),
    (0x6a9c302081344c21, 0x8d5e79e08e77bd76, 0xd720e19d283eccb1, 0xd1c6e889b9d16841),
    (0x5478547c289b0735, 0x67be113be04a8242, 0xbc358d1979294bc7, 0x9e22aae31d09bf9e),
    (0x5f25536a83f33b05, 0x97074cc0a7b06372, 0xa8a165672383953f, 0x0005895d1e890ca1),
    (0x5f90df3d57a39762, 0x54c3288280057251, 0x5374678c8c47d2cc, 0x0232765aa122d018),
    (0x40c6e385a5b22e31, 0xc59c6e3b2b227247, 0x532b7e0a19ded97e, 0x3befb95efd0b5bef),
    (0x06616d16c84ff8a2, 0xfcb929fa81975ddf, 0xd9a03436a147f574, 0x752cf07d2fad2b80),
    (0x5beb7d108d84bbaa, 0x4604aa66dd7c90e0, 0x80abe3a8ba5121d6, 0x08b73a886fcafc62),
    (0x5a5bea7374768fad, 0x445b2390cdedfde0, 0xeee214e3bb4d284e, 0x4ceeb7f262bd1d72),
    (0x213e77ff687151a1, 0xfc29a60fb4dd63bf, 0x3c1e292df69495cf, 0x4d98376b2366e28e),
    (0x0c88640bf3a29a0d, 0xd37d9e25a86d2705, 0xc7a7c3885b18d445, 0xea91b1ecf268c93b),
    (0x48c1b60584c00147, 0x340ec0884d2d9d47, 0x8df292d7d8f01a7e, 0xf4d4be687356d669),
    (0x1a908e3a411119c7, 0x9cfc6b2bb1b20ff6, 0x05e7021902b3ae5e, 0x180345d95c7b38b2),
    (0x5d50629b33b1c031, 0xd411c7ebf878c14a, 0x6147314f7a018263, 0x1e22b74667e29e27),
    (0x14bc5cc52b8a043e, 0xe9b57b13c0f926b2, 0x402780c157b3b7f5, 0x266a6e342fe4dfa0),
    (0x2f0ebbef67c9fb32, 0x0f41ab6c922361b0, 0x453a639b9ed15e73, 0x42317f2b1e96e406),
    (0x010f62c93ee52b1d, 0x7431d6d5a76fdfa9, 0xf504474685052f0f, 0x6329c27fc6ea1dab),
    (0x36db54023387dfbf, 0x8bfc95d24fcc4bfd, 0x962031e715edca85, 0x2e83acccb92f4ffc),
    (0x5eb49b762ee81a3a, 0xb49c1156bb71a44d, 0xcc1b97f09b75230c, 0x01968f8351e01f0f),
    (0x08648fd3a3a70bd7, 0xa44ec37184859bb0, 0xc1176ad6f2823d43, 0xc56da99029c316b4),
    (0x232862ff51c9ea45, 0x58ebf1d121104c94, 0x907a916cbd1bf516, 0xb3db5a017c642126),
    (0x661d7f2a4d5e809a, 0xd0f8fe6fcf3d7e00, 0xf49db9e050313ebf, 0xd9c7a284b30cc757),
    (0x71a50c66f29a29da, 0x54480dbc27b7bcb0, 0x5c07678a31f3b65b, 0xbb5facf95425ca55),
    (0x57fccbe64a95a790, 0x6538eda8dd499b76, 0xf2350139abe7c7d2, 0x7d7b8d7c5b64e2dd),
    (0x14ec4b09665c3bbe, 0xbfa6f8f436d96d46, 0x860e8ba8df1f8194, 0x797f3d52817eaf25),
    (0x2d17fb6f69370338, 0xb1bb855119fec355, 0xd442a06d720104dc, 0x72cec5d62d1d21ff),
    (0x162262a3fff35edf, 0x6531a16d3cb0f941, 0x15d430dea5018e9b, 0x89909581c66d0f6b),
    (0x0328f7c3be73907c, 0x280b77a716b1b3b6, 0xb00fce49a169a3cc, 0x6e49e33192d9c375),
    (0x365b7a95bc5aff9b, 0x6e5dbd7159aa8d28, 0xf5f4eb6c4b3cd5d5, 0x30a6fda80072de53),
    (0x6eb6ccdb8e6eb436, 0x0dd18935895d67a5, 0x513636982797d532, 0x90a84982ac7b9375),
    (0x231c46dc7af48101, 0xe5cf8234b8a41b6b, 0xf2c7adda1bed45fc, 0xf3632fc406ff5163),
    (0x6707520af198f127, 0x3abb45e9ac607e4a, 0x51a928dd262dbc6f, 0x3b277e6b536e9df2),
    (0x60ff8a22f1dd0e91, 0x80ce896bcbd11b03, 0x9442b9731cbd3006, 0x4b50f5991f8cb05b),
    (0x55ca5852da0515bd, 0x7048a96e1e29b7ff, 0x109f35fa7b2721f7, 0x7e7dc0feaafd179f),
    (0x6d2c5ba18d24eb3a, 0x8695116fda75b71e, 0xe01e7516dd285883, 0xe89f91e8e8734306),
    (0x67936473f9214ef9, 0xa60824574058e98f, 0x704a81172bb0fa6d, 0xe61dd054d33d3b41),
    (0x50d83acf90663c7c, 0x5418a2b3792c383c, 0x25b8d58fb16ee256, 0x14069410504bddde),
    (0x5a7898b12daacb78, 0x97982cd665c9e3a0, 0x94f4aa8cad84d505, 0xc6a717fda873fb40),
    (0x4b4ff353271eb087, 0xc6344cf1f94c3be3, 0x7ac280b1e03aad0d, 0x6eb4191a2afede92),
    (0x29cfd23e206fbe6f, 0x9f722f56d680ff17, 0x9f9673a80793ce52, 0xebb5b9ea1de2da5e),
    (0x3629bd0af96291df, 0x86ab06cf4499d792, 0x17247cf2d2b5cf46, 0x1551aa47ec524f3a),
    (0x10e74cf1bc38a2c1, 0xc0d224e687361b06, 0xb3aead22f7ba54e3, 0xebbb2fdc8c6c2e5a),
    (0x4e91f3bf16423f58, 0x3db5c5ea1b7485d9, 0xc032d62c9dd12d1e, 0x322cab3fd838e854),
    (0x19ddf902f2ad41b0, 0x8365c726e94db4b8, 0xa1e036cc0c0f7537, 0x252a85c5e78b59a7),
];

/// The MDS matrix for BLS12-381 and width 5, row after row.
pub const MDS_BLS12_381_T_5: [Limbs; 25] = [
    (0x5edc4de43ff07c60, 0xace8f91ac726180f, 0x38604b5bb2f2ab2c, 0x27aa2a4d53cf7081),
    (0x21c0f632624d48a1, 0x1931e2bcb8695897, 0xe5cb1d7cec432d11, 0x5df1b25ea0d9d4a3),
    (0x4243ff5f4a234a22, 0x56286afa4ec59b4c, 0x9c32439c0869f1aa, 0x0b92a5ab82ee1b38),
    (0x7344ba891ca71591, 0xe07e7e6aa563931b, 0x9d07b548c816668a, 0xf7f6170e5c8cd073),
    (0x20c42fc15a32ed98, 0xb81609d1e9de98f2, 0x55e4b46414af1dad, 0x036bfe255d3d2f19),
    (0x68186626fb0239ce, 0x09c22fe4ec756ab3, 0xdede54596e3cc426, 0xac7ec1f5c38881f2),
    (0x1cdfe1f1de4a7290, 0xab39316b544da5e6, 0x576d4d1c05eaf071, 0x9c3c60867fab0372),
    (0x1992e57fe5537033, 0xe0b3711c4aba9a66, 0x30fdf87a5962a442, 0xe926718e92f7e573),
    (0x5033856a6fe61acb, 0xb5a95e6f8e1d6e5a, 0xca6e1d2125d0c03d, 0x864e8fecdb3ccd4a),
    (0x09e7c08b5c328975, 0x1cf3e30a7ab45c59, 0xaaca49585c3f08fb, 0x39a67bc9466cceb2),
    (0x73ac6ff5f192940a, 0x6a3198b94a158121, 0x172678891e35c889, 0x5c6a20f4164f7c93),
    (0x03ac6b5eccedc5da, 0x43ff372db13fa55a, 0xc197bb9592e15d4f, 0xeb74ee152e90e952),
    (0x1574427d32abdcde, 0x8a24db9e42219c68, 0xf84d89f342f0eb45, 0x5309c7937054f842),
    (0x21fcae8d9f8f62a9, 0x56217b8fd134560f, 0xc2654527ee9e5359, 0xbeefb95b2c59288d),
    (0x06ca0c88a6163295, 0x6a1d3e91999c842f, 0x03b6e7f121df734c, 0xe75682fbfa1ef7f9),
    (0x4ce4f0699adf8172, 0xf73b8cd2407d7db6, 0x98a2625bf837b95a, 0x35abbf4eddcbd7dd),
    (0x1a0f8b3e444c78fc, 0xc67ce285e743094a, 0x787745b2761df220, 0x3979fc08d3ab3a99),
    (0x40a3f19fa4064fd9, 0xc119dd0acaea02ea, 0x3ae33a5df8b18186, 0x7ff6b705f159e4af),
    (0x051d14de8bbf745f, 0x9f8a20682c4104c4, 0x8a0198e8f604ae06, 0xb45de4051d90065c),
    (0x294ce128d90968ca, 0x910a8cc18c9ab58d, 0x41a0a91df79bed87, 0x8952aa88f7433a80),
    (0x637e4ac13df1eefb, 0xc7ee982d5a044b89, 0xa20d383b17fa5a23, 0xbfe25a7915d8885f),
    (0x35151e81622f69de, 0xc5eedf76619630dc, 0x42997eeaf162fdda, 0x7644ce726da53c3b),
    (0x707fbbeb0bf2b5aa, 0x6ed7573b46506eff, 0x64c69ce781aa7fa6, 0x16e3d53390922a1e),
    (0x5e876f8493c339c3, 0x6750caa31382bea4, 0xa90d6928976a3f99, 0x6a30a3f1af778f63),
    (0x121909e9d5554a3b, 0x3d207272ad07359b, 0xb49136e23fe6f0d1, 0xc62c3bf940ca5bcd),
];

/// The round constants for BLS12-381 and width 5, round after round.
pub const RC_BLS12_381_T_5: [Limbs; 320] = [
    (0x5c5bec06aa43ca81, 0x1a9c78919fe50527, 0x6e4625b2dc92b869, 0x47cc4d7726c77d3d),
    (0x6268bc5f9031edb5, 0xb6bc2edbbe091cce, 0x714d51abbba4301f, 0xa0a19319da4ca232),
    (0x4572aeff3e581883, 0xc3333a4fcb784afd, 0xd0f4b81f0d34e368, 0x35fd9a2644342b6a),
    (0x2c44402b93c5ac82, 0xbc8bb58e947fca10, 0x7e865d85b1cb0f1f, 0x32f0c05cdaf439f8),
    (0x023eb54d53e89505, 0xd0c9258bee0de17b, 0xb0a11e451b48d22d, 0x88549e05e2018403),
    (0x5c3c49994dfe7863, 0xf506ee54719e6ee2, 0x2a8136da7b276fd9, 0x5b222de90b48feec),
    (0x349b3f7366f89983, 0xb3858e40a22f53fa, 0x2e62ad46932303ce, 0x85d42591ca5141a3),
    (0x0b383428a756701b, 0x8c1c1c38c9c3abbb, 0x4df3b6fbb5a581fe, 0x9bba326455776e91),
    (0x6814d01a7834e8f1, 0xf53b89bae25702ed, 0x6c864c49ffba3820, 0xe6106185e81a85e1),
    (0x382d39c6bdbba256, 0xb12d3fa4476187c1, 0x4c4867255ea999c6, 0x503e92f520e9a918),
    (0x507aa38edca7a8d6, 0x925c668abc3a17a3, 0x252efb8f94740a77, 0x75db0bb328d1061e),
    (0x3bd1bbe1f40eb3fa, 0x7def818257305e9c, 0x50a675d756e6aed0, 0x51fc4e7b7b132d8b),
    (0x4ddaf59374164d01, 0xc4c07ac09d306653, 0xf607cb880ab16330, 0xc680994321df3f4a),
    (0x36a92b9f74005c18, 0x02eb60930a7135d4, 0xaf73fc20a5355060, 0x93f98fa0aa1fbd91),
    (0x1eeb8e80a4a1382b, 0xda0c063aa61dad5d, 0xa57fa80865d0beeb, 0x2b9e69a07b5965f4),
    (0x245c1c6d6f21bf7d, 0xd2abd16265141696, 0x78fa53bd900f6bd2, 0xcd854a9a965cb77b),
    (0x4fee9d33743fa477, 0xa4fe71f77e5c9577, 0x8db9c7efee51846f, 0x4a2d369e18a15cdd),
    (0x1a1492b84929e708, 0x0f0b6c8b1c46e916, 0x4beed12136837032, 0x670d44165d269c69),
    (0x64f9e3fa689c4897, 0x4257c4e505827bb9, 0xc0babbe89366dfcb, 0xb3162eafab4e8b07),
    (0x0b0a1a2b2762612d, 0x71d2f2d692c63221, 0x8b5e47f3f0e38d63, 0x8cfd365c313dbd48),
    (0x05b20208ea037713, 0x9f322767d36fea85, 0x4d28ccedb083ab89, 0x01f4054f822c5101),
    (0x0710c608d8a48043, 0xe99dd94a0b1d2290, 0x6b67dafb6bc5b95a, 0xdf8c2f24ce81b0cd),
    (0x68e5bf430d23864f, 0x21836ccefc1fac48, 0x01bdc00cc43de260, 0x8532d788c7fb45e7),
    (0x09221b8a932a7820, 0x912b20bf5b919b7e, 0x0a22b3c9d2a1f0d9, 0x832ca03b0fc0ed9f),
    (0x65ac3ba4cbab3d26, 0x22b373ef54c1dfb2, 0x99e7fb992555478d, 0x5c1c44ee78632953),
    (0x114be59c06f561e8, 0x324e306a28896fb1, 0xdd3802773891f54f, 0x0b8243718ef12542),
    (0x61d96c0b2e0683a2, 0xd7ffcd9e0b3a58b8, 0x6fb3ecca7941391e, 0x597efc13f38ff503),
    (0x103454e35e0f4d69, 0x0d8d1ab122b4c5c9, 0x2e0512004f1af1e3, 0x140694c686cbeba9),
    (0x2d2d628ded9373dc, 0xfc3ad59072a51b9a, 0x2d6c8c4707530661, 0x95b77ca3a821fe47),
    (0x2b0bf337fd4454a5, 0xe38344e0e711b9ae, 0x2281545fd99ad3fe, 0x46da2e1e4b9c98ce),
    (0x0575c431f72a4024, 0x2de5963e47cc7dad, 0x1aced5d9a1c9de5a, 0xc7ab5c22fad3cd67),
    (0x0ec8f181daf128e7, 0x16d3d7726dcf8ecb, 0xdddadca0063dc726, 0x196baec197eb3612),
    (0x33779259084a9446, 0x2f31c2650f6affd7, 0x17ea200e62d2349f, 0x07fba50dd64b4875),
    (0x122bdda32a00e4a3, 0x335a55fb2af4a240, 0x44fe2b223bebbbde, 0x2b32e09ef1add101),
    (0x14884ad16b1f79e5, 0xba9d3c24b2f3f762, 0x72411ddfaa9bafb4, 0x21ef4d583ba736bc),
    (0x323f85cbba64efc3, 0x8ccc35c5fa9d673f, 0xef3ff652da7f2f93, 0xe176a40de61e1e70),
    (0x1a3fac3af20c37ae, 0xd0e41f6fa6f1a488, 0x401f16c61fc3a4e8, 0x6cda951a0e3795e3),
    (0x1d927c14cd47e256, 0x13656bc801719548, 0x94d2e882e35a4dc8, 0x04cbc0803d47a814),
    (0x22f1a2a2ade490e1, 0x88fea20d06270056, 0x8123e4b54290ab6a, 0x695584f3ec971eab),
    (0x2c04db231c81645f, 0x30937dc5546efb30, 0x690acea9ef5769ce, 0x42000f486f893a45),
    (0x21385b6f914a8c6f, 0x421629278dfa84f2, 0xccdcf621b0501324, 0x7341438237ad3fc1),
    (0x2f00090ff1cb76ea, 0xf3b6cf23718ae736, 0xaf07c34cac823388, 0xe0234420247e3160),
    (0x455e8b0828f36670, 0x21a434761d5b6a5f, 0xb2e90635a6b038e4, 0x315f8a30dda4af00),
    (0x028b320c702e0778, 0x87d5556c7c879c7d, 0x54c6c681497a1d4f, 0xa5f2045fc553211f),
    (0x2502f75174997811, 0x2c96e7321ff1c0b7, 0x6b3ff74190dadba0, 0xb67eac15462079f4),
    (0x0a02577f723a21ce, 0xd13408ed76b38ad8, 0xbbdfcc8132bb6dfb, 0xbbea8ece52e0e810),
    (0x55d052b889557f2f, 0xc0e61e83b82261a7, 0x59b75cfbec4c6f97, 0xb1104301163753b7),
    (0x450a0821b86175e4, 0x877ccb7e8b1918bb, 0xe3e88819bc9ed36c, 0xe30cca14b8eeb911),
    (0x4a399ec4758d73d1, 0x1ab365f26081aea3, 0xa61d156ec6f0185a, 0x18702e8ee1631f18),
    (0x1305a1f607f37901, 0xc0a88b2b7f23672e, 0xfec118296f4550a0, 0x58f4f94c25b66092),
    (0x08e98ff1f10c0092, 0xb41a881d5663d8d8, 0x5b081830f3f5bc90, 0x4dc9b2a88969344d),
    (0x1a986478818b795d, 0x1a509aff8d2ac258, 0x8342e320b77c1ebd, 0xa86c5be7b0389487),
    (0x3a68e478946a5cfc, 0x6c3a21c7416ad4af, 0xa64f7130ddf89869, 0x35942d6835665edd),
    (0x115b2ef9469d9140, 0x8b6e1d46e671d335, 0xaabac9d8882cdf17, 0xd1afb385b1051e3e),
    (0x0b7fe376d67252e9, 0x0d9f06b43947fca0, 0x3a50072c24d8598b, 0x7248fbc8b0d64e9e),
    (0x621fba0544792a49, 0x10a92402dc5c5663, 0x0bbdc50cad3edc99, 0xee6e5466b7295042),
    (0x47ea2bb0150f7e51, 0x992433be07d695f5, 0xee93a948cdee6fe5, 0x73b5ddd9702ac19f),
    (0x3333d094869d1f23, 0xf0ae3787ad1c1051, 0x22e8338b51b7a970, 0x260ea700d409d55e),
    (0x36291942b0c4d132, 0x9fa0db7230b3ef9b, 0xe3e8e4b1b5189763, 0x1bed81ef4d405327),
    (0x548bdc2c8e44774e, 0xfaa30d0df03cd307, 0xb25ef86fe73bfd7d, 0xe1c16116afa8d432),
    (0x2ff0b6bb42027bb7, 0xb5eff8a312df92db, 0x0928c4fd5f47b6cd, 0xd87a13c5983b50b5),
    (0x4765640bd361f949, 0xa2ba640706c1f143, 0x6dc29d769c57a31b, 0x027bd6dd4c1c799b),
    (0x311b329ed3aafeae, 0x007cabd2bd3cf506, 0x698ea4248dc68414, 0x5e0d2a2fd789a8b8),
    (0x18cf391449564ad0, 0x53c4af0b0734e6c1, 0xf1de59d415ede6c4, 0xded5a29e64420565),
    (0x030053d7aa258bd4, 0x1e80bc261fbea820, 0x091418b2fe5121ce, 0x24e12c1ad57cfe12),
    (0x347d2cc8b97eca81, 0xed23167c5c2f6cb2, 0x14972cc54cb86f93, 0xe5e49b52ab79ef81),
    (0x73e40cea4c8924cc, 0x70d7555087c7384a, 0xf177bf4ba4fcd4d9, 0x23c3bd78072bf437),
    (0x5d26bfff868d80ac, 0xb7185d70543557ac, 0xa3886e17dc537ca7, 0x997b834939f34525),
    (0x41ebe1430659e09f, 0xcb9a8ae6be869b51, 0xbb1261dfda863efc, 0x4ccb60ab9d2d3dea),
    (0x32f72f5fabe91e61, 0x8ef627a08e9d8667, 0xa9180a22c10aa859, 0xd70b80239bfc8cc6),
    (0x0ffdf50ad0cb49c1, 0x7906f3cc43ee935b, 0x6a82cd5ac4574beb, 0x8d9df72eab4e806c),
    (0x61374dc1b440ea38, 0xca2bc3c49d6060f4, 0xf0e32ba7669040e3, 0x0388caf2ab833e11),
    (0x27ec5217fa23b99f, 0x059a21d5ef05e9e4, 0x77bd68025545246e, 0xdce72bd7d70acb4b),
    (0x6a91bd2230a5d48e, 0x7496d52dc84436e0, 0x77f89f44bd08d883, 0xe74257df856440ce),
    (0x4988f6b46cff4106, 0x095f3a8b6e07fc1a, 0x50f8f419b0778645, 0xb564e69638fb7e34),
    (0x5255dfc95d1c0ca8, 0x6a7ed39bbe02112c, 0xf62e4ee518b40901, 0x768e0ea5a2c30bcf),
    (0x35491d836b717f64, 0xd348e449d958bada, 0x0f89479479c18787, 0xc9046c846261de24),
    (0x5f28561407a05659, 0x4276543ccfbfedb7, 0x2892cadd7eb63c4f, 0xe00d3120372e1922),
    (0x397ccc5ef29caa6d, 0xe873609650e9bea1, 0x7ac048e52e4f8c86, 0xcbfdbbdc9f5eea9a),
    (0x6431baeb99d486ab, 0xd0c30bd23eedbb7a, 0xaf863dfe32cdc6ea, 0x6a29a62a49ec5fa2),
    (0x09afe5011abd7c99, 0x753eec059463d6cd, 0x5c91dd494afe903b, 0x1ddbd0fa74cd1753),
    (0x28f1cec0ec97fe7a, 0xa7d4642897e1c51c, 0xe50fe46b5f28650b, 0xc41e523b370033d5),
    (0x0cb26f0ca4624ddd, 0xbdf19003dae43f28, 0xd0e2b75e2df657d9, 0xacea9140d860e51a),
    (0x373bf8d7205b2684, 0xfbf374dc8d8535d7, 0xf278815f7cfd857f, 0x6ee064e8c96c3454),
    (0x42927ab0937f41bc, 0xe0d6f843b523605c, 0x78e4d283bad74f84, 0x6fbe8b8d7abf1ef5),
    (0x5ee3c0e954d211a4, 0xbdd47823cfdb7bca, 0x087c95b7a4d25020, 0x0a9754d316f59aff),
    (0x678615cf67212c3a, 0x2993577659d42636, 0x55b9dd58708ccfa2, 0x0afe9083b6ecb662),
    (0x3c54727f944cca49, 0x5d23c1777e7536c6, 0x321f871326092e6b, 0xeb94d87444157ddc),
    (0x53c65020af3f5abd, 0xa95860ad9383f77f, 0x10d5a8e7dc1975b7, 0x4346db78de0b49eb),
    (0x5f5dd3df34ccc64f, 0x794d16acbc63bed0, 0xc4ce2cd38089e11d, 0xc95c9871c2a7ae31),
    (0x09637e652e915ae0, 0xbc1d62b7da1c9d8b, 0x973bf8f23f4322ba, 0xb6bcc7b4a4406a9f),
    (0x546b9e395dee0a94, 0x66918ed255f76df4, 0xcd2c7c19681f2f71, 0x2d4c16107b461351),
    (0x18cb6e5d6d095911, 0x4085a657a62004d6, 0xd4bac25ae567ca63, 0x501cd280f915de1d),
    (0x58782afd4a8a938b, 0xed95f04b985f4711, 0xefb2dacb8427fd6f, 0x8de78eb619ae9cad),
    (0x072db66d8b16ae3a, 0xeb6d9e932e4de43e, 0x2e5cbfaaf34c7a0a, 0xa24dd9cf2a8e41b9),
    (0x577832f774c67cdd, 0xd7505cf603ca2e8f, 0xec342531bd0a1dbd, 0xde6d2e0728d565ec),
    (0x08c6f1218fd35bfd, 0x0e6b5b50735a0c9a, 0x6d284f4051672f41, 0xc0fe39465f0a3af2),
    (0x0eba8169994d61a6, 0xf1d3f5a7be72a022, 0x9f10693847f87734, 0xcd5305b77749240c),
    (0x04851fb71ef33d8a, 0x5df10bf40b435190, 0x35055256714de067, 0xc7d845304d464145),
    (0x2a5da7e9bf73c947, 0x9fa6e5f71288d31c, 0xefb6894921ac1e76, 0xd1e82be69ec4fed3),
    (0x58a009a0ea2c67b5, 0x923aa87f30a79f44, 0x8b66d6c21507d073, 0x54991eef394c7d1a),
    (0x580d5aa604771bdf, 0x66ce0092f4c71748, 0x19c96b5e92499f48, 0xfe0199c4200060c0),
    (0x72542655258cd87a, 0x0d0044f4e93d5858, 0x4e6cf0009edb87f8, 0x175eb9c4e5778f85),
    (0x22fc306957bf2306, 0xac57ac3301b2d32d, 0xccdc860a7c0ceadd, 0xafd6727747e42034),
    (0x47ea3e54e528ddc6, 0xe63b7ee7f14f8008, 0x2b1df4719a68c4c9, 0x444a4aa640b21fa6),
    (0x2e237e775ea78f7f, 0x7b0843e916f0837b, 0x99e5f2543628d0b9, 0x050be31e16fffaf0),
    (0x254faafb9e2c37d7, 0x918e6a9f7b627db4, 0xf5317e83cd293ee6, 0xd62acc483806a7ca),
    (0x20efada29ea25991, 0x1ca23420027e98b8, 0xc5af2a2f202903c7, 0x149a7167d6b0ce6c),
    (0x184a55e01875861e, 0x661289b3ad905293, 0x239eeae97ee5db99, 0x332b37e8f6c307e1),
    (0x6acbe53e7aced8a5, 0xa614cf26a175397f, 0x136c25f2fb2e7b0a, 0x58caa97b1009f1ea),
    (0x264991a53ef2e991, 0x8551c6b90ef7bb83, 0x39cd2f898e2322f4, 0x4acff18b9b9a66d6),
    (0x5078f86a7da7702a, 0x4cc8a3223da343be, 0xab035793b9434c39, 0x321da9d3691f999a),
    (0x39a8104ab4e2622b, 0x9523a3a9f9ee3b41, 0xa8397ea953823e41, 0x9e06269fb3d2c1eb),
    (0x35728c2b81c712a3, 0x4f3fe53c4393021a, 0xe73795035bcf1e63, 0x1c0a99f44bf5639b),
    (0x41d7615f8bd97f17, 0x8282eac27dbdc321, 0x5b7a2606a8612282, 0x7c44bad1e42c67e9),
    (0x233bd5884457b5a4, 0xe1b4d1298f4695e1, 0x72e6193afc096e78, 0xaf06c474e85b13fa),
    (0x2f967109b61b2b2e, 0xb441e9a7132308cf, 0x975724cdc241eb94, 0x655d5480b6a45cae),
    (0x64f73e5667bde703, 0x7ddb61a224bfca79, 0x5a61fbf0f78ea040, 0x19183161b0237c77),
    (0x3829281d031f932f, 0x1ae9a2067bf6513d, 0xc51d5455b6dfa295, 0x5b16373596a7989b),
    (0x52954070f8e0b8f4, 0xeb729b51e0c39110, 0x1bcc120bb503d257, 0x8914d110355746d6),
    (0x03b69267b12f4953, 0x32d5c8a466cf1323, 0x221b891669924d11, 0x8a44e89c0df8f1a4),
    (0x1d33c92e7d3ee174, 0x9755786f52ec76c7, 0xbd7a9a4b77217470, 0x2a35fad10d40b2e1),
    (0x08d86c442959963e, 0x62deb44bd05d10e5, 0x1e37c66c524c90b1, 0x8fb3537ffc3fee70),
    (0x24194a8ccf272dee, 0x642baf29a85cdb20, 0x3bddf6da1348fa53, 0x8abde1d28b1e170c),
    (0x1c0b6f25101f49fa, 0xa88022f8c83bac53, 0xea9f160f62b6d19b, 0xbe321b5fede43ea9),
    (0x5965df1635254bb7, 0x3a2d95bdc456a195, 0x7c797f02a6351a3f, 0x7ff22e4b014bdb17),
    (0x6fecddfd9ffaf803, 0xe45405fac3529a15, 0xa0093ac87afa05c5, 0x0915bd154ef0cf6d),
    (0x6c5a8175e24da734, 0x09ded2913dc27396, 0xcc1da85c94768318, 0x6df43b33f92d55e2),
    (0x40e211d645b6bdee, 0x48d4b4faa0f0b318, 0x0a6c6dc54ef62047, 0x7c0384b0610fee60),
    (0x42adc6f65f9df803, 0x6a34dd4fa987a264, 0x97a6526dda4b90f4, 0x9de337c149748d70),
    (0x73185cb8f8642b0e, 0xb4449590423d9e65, 0xbd29805945dacf6d, 0x59c8e8a0babd987f),
    (0x1999004fd6cd12e0, 0x5fabf2d5b9f0cfa0, 0x62c0eb4a90413894, 0xe2d1b70e5b5d527e),
    (0x4f89f26b5f08f1aa, 0xb934b63ddc6a2594, 0x2475ae3ed15b5c36, 0xc55ec579af3b0ecd),
    (0x12a5fbf0400a087a, 0xba86a4226a836325, 0x339c3c95375a0cb0, 0x9db74905ca5d968a),
    (0x11a3fa42d518e204, 0x48aaeba3783c045f, 0x368a3d002723e106, 0x76a541a9e12a78ce),
    (0x2f59f158b1c60bf1, 0x2bbb4d956ff1dc94, 0x42aad7e876e2562d, 0x4438dfd2e2655ba0),
    (0x48956231bc3a0c35, 0x81112417097659b5, 0x0d06c16b511c535c, 0x2decc1a3bce340b3),
    (0x2849b06e476443c4, 0x3bd47dd906fccdf2, 0x728c537a7a5f0f69, 0x38e168bbd8149a0e),
    (0x58d1184212a2fe71, 0xf72bb99b925e9c14, 0x32179bd4c8ff918d, 0xaf4dfd7e7cee91ed),
    (0x3fc33989242fa44c, 0xbd5172dc768de9a6, 0xc9d4a142d6fa7b99, 0x679735aea4e3cc61),
    (0x04609e4a1be08e45, 0xa07d3cab7478c170, 0xa88cdbf32e124721, 0xcf6b8b1292be02c4),
    (0x51a47f35ce630b8a, 0x01599a2f45d14149, 0x6e6babe83c19f1e5, 0x8f34cedae71a4819),
    (0x011de2c7cafc96dc, 0x5d5919ae28878016, 0x7e017d27067288f8, 0xc79bd2344700d97e),
    (0x5505b08ca4fbe52a, 0xd9fe89d2a797f975, 0xbb9605b25b399741, 0x248aa4b29da00b66),
    (0x0764417ff69a6cdf, 0x71ed5ca55be442dc, 0xf7b9c23364cedc48, 0x30ce28a8d31fe617),
    (0x1ea443addd653c9a, 0x0eb5f9a7dfee8d54, 0x3f3f4e413067c6bd, 0xa7fe278f6f0a6994),
    (0x30e8242b2eb26dde, 0x1277a06df6c4a335, 0xe18c3819df2e71ca, 0xd28c1082a1c94dfc),
    (0x4be93987573b6cfc, 0x6fd56c56cba5e12b, 0xb539818aa40f1fdc, 0x8c611d29f8048184),
    (0x42b770b2264660e6, 0x0e59d224e4a050d5, 0xd7f1f31a45690ff2, 0x577f28e3dbe29986),
    (0x08a27e30763aad74, 0xf3d3f24b6e19d4a3, 0xbfabca120244698d, 0x3f4b7bb2ad4919a8),
    (0x2cc5903961de4dcb, 0xbd0933b1961ce0f9, 0xe11eb86626dc332f, 0x1787954597b45627),
    (0x47e985d487ee6e1e, 0x26bacd792ac5ba28, 0xd4509c9dd7c39ef7, 0x416951e9647a4dbc),
    (0x2b93f9997e71be64, 0x5215084ba7e08d2f, 0xf99b8f839f800cae, 0xfe3a30661396ce61),
    (0x712d0469727032af, 0x24d88a999b60638a, 0x9c04e2fad716a688, 0x68dd6d2f5c8bf1af),
    (0x6bdaebef7927e6c1, 0x95dc585eb0520a55, 0xd565a8c261075033, 0x41497c7a5098d7cd),
    (0x66c00c9738eaa31d, 0x7b0b8a2fe0b1de81, 0xd8b42fc536383a40, 0x509079e97615197d),
    (0x1fcfaf860b9f60ee, 0xa753e8a2d79c344b, 0xf94384942cd898fd, 0x9a254acb40469c50),
    (0x28b4dc5e4f2550e9, 0x29ed53c414e2cfea, 0x1ca76b137f7ebec5, 0x4533c4652105b938),
    (0x472b0e17b62a901a, 0x4747be944d427c0e, 0x3a501de3403e4551, 0xc1cd29a04090e6aa),
    (0x52f256eaa5ed5afc, 0x5b02bfd70dc7c70e, 0xaedbc3f89d72140b, 0x4374c36741c17f72),
    (0x604a77f3a748eb22, 0x6cf823c3ee35009d, 0x95a99eeae0d0b595, 0x13fef0356204b9b1),
    (0x0b6e82f7e448979b, 0x1f794e2449f4cf86, 0x5d12dd0515ce061e, 0xcc2de699ab8f9364),
    (0x08ac469169f16f69, 0xd9953b3f0060e635, 0x6abcc7eaf46216a8, 0x3146e6470d0f3407),
    (0x593ae35f24590d6e, 0x1125e9a4e968e2a0, 0x3424e6527173002e, 0x20f10da98739be87),
    (0x1842a0080d610897, 0x631657769cfe9848, 0x0828c5af6f8ab045, 0x4e1fc5181871abfb),
    (0x1b4617ab22cbbeb1, 0x0c39493e2dc4b465, 0xe17e795b82ebb9c9, 0x86a18ea0c5f71312),
    (0x12f49e7b20d1b518, 0xf36f2d3aea11fd8b, 0x60f19cf5b0a24160, 0x76f12a8b203f1854),
    (0x2930f273fa05d398, 0xe9439d14b49ae806, 0x649b330696b98864, 0xd603dae3afb0ec37),
    (0x0bd3c0be6e783e92, 0xb477cc3429c27de9, 0xc532f3269d540c49, 0xbe9ea939d7a1a68b),
    (0x58cca0bc2eaee337, 0x303a1035429216b5, 0xf5b23acdcafd5496, 0xe30b85806a64ed51),
    (0x22f54df37e0c28d9, 0xff08bfad67c57212, 0x7f657256b9397499, 0x2e90c362b84c142d),
    (0x4f227e82309f2af0, 0x243a3840e8d3a457, 0xb328e00c00b6d58a, 0x76dd7ad245e792d7),
    (0x4fa65b781e4c2ed9, 0x65b74c201e8af52a, 0x835bc991db3ae610, 0xbe9ece0778221fab),
    (0x6168f0439fe970f7, 0xcc596c8a18bdf3e7, 0x285c9eb52e3372af, 0xa9084df3cbadcb2c),
    (0x2ee0f0f1b7fae6d6, 0xec9851629b8410c9, 0xb0d80ffa0e6bca06, 0xd6009c174b4cde76),
    (0x463de84b0649f8fc, 0x6c262e00e6a950a6, 0x56604a8ca21a5279, 0x50f6eee511e7118a),
    (0x5fb8be949ded20fd, 0xdbca6db6105d2a0b, 0x64e527932a3924fa, 0xd59a96a58b34bf8e),
    (0x0c2e0aa86422baeb, 0xfbd0e70123222cf8, 0x6ab85010684f0d6d, 0x4b7fbf8e2b968001),
    (0x5f8726f651ad2518, 0xb78c6fe100462dc0, 0xc13d8acf6e42651d, 0x682297cea73fc868),
    (0x51c95bf666ff8fec, 0xf4e0b85bb58b834d, 0x2218d9f20170bf1b, 0xe5d3c9aec43def38),
    (0x3c4a879d04291aec, 0x2897628e731f3f63, 0xe04a8c7cd382a8c0, 0xfb014a62bbe8be61),
    (0x4e3f2713561dd6e4, 0xb5071e0759eaa954, 0x5eab7b6335466e7c, 0x618d3988d1bad504),
    (0x1158d86cddece49c, 0x18d48e32822fb977, 0xde5033e0e902c456, 0x01f8852193e4a604),
    (0x02263730859a58ba, 0x2d3db60d5d7c7466, 0x824850b3207435e4, 0x76ba35890a37fd2c),
    (0x4d439b61a3703c36, 0x425888a3acf85639, 0x085b9a95429dcedd, 0x1b046c0a4a78acc5),
    (0x1330cb0c5d2fa075, 0xaabb6bfb28276a9b, 0xbb44fb43306a6324, 0x6aae25e1527868bd),
    (0x16b95b643081cb04, 0x3bdae50355f91df7, 0x9c9b588c43e59038, 0xe6e6d0cc1698b5a5),
    (0x1fb8d50108e2fb3e, 0xa1f80aa372da950a, 0x36eca4571240be90, 0xaa5b3fccfef3c321),
    (0x4a53ec9735e16f61, 0x83934f1a7813d75c, 0xd11bbde409d8b262, 0x273bdfe5bc5dcc50),
    (0x079ba56e1ca1d8c8, 0xeade23e8273e2db2, 0xa486901dbce8cd86, 0xcaf41ae406fa21d5),
    (0x38ed6aa3cc88a95f, 0xb845db9d5ef043ec, 0xacbfac58a8bb5cd9, 0xbce8e4d1e5967c68),
    (0x2aae4dacc5a04fc3, 0x2d1abd33601ee1c2, 0x3c2986cc24dd63bf, 0x6d63be3a996fc5f4),
    (0x4d34a394da7c0ecb, 0x24de0dff84192c35, 0x090ba8748d569027, 0x2f9948efd2d095b4),
    (0x42b103442e734014, 0x097c5c63f509110d, 0xbc1872226e7db81b, 0x19c474c4c406aa18),
    (0x48a2063c98229fda, 0xa1768185d6a3f4de, 0xa3db1ce1de6b7b12, 0x1794580993f5c78c),
    (0x6ce4def3b2ebbdc1, 0xa4cf7f1a57d58467, 0xb1c48be6aa9c55c2, 0x1696456dd58f03bb),
    (0x195ce730b876d592, 0x9a76a7c5d69bf191, 0x1280dab5a69c2cd3, 0x8ee4b61dadfc00e2),
    (0x63bf1167c90f8dd2, 0x360d3e401c7fbed1, 0x7da04b327ea2c948, 0x75739591bdc7d5dc),
    (0x5db879cb0bbf165c, 0x80452e14073c8b96, 0xab8fb608a22b43c3, 0xcf267419c0dbf3c8),
    (0x472b50d6fb5d632e, 0x95ae0c5dd5f071ec, 0x8b6b4ee1407e5f39, 0x96a3b6e9c2a3d587),
    (0x3cb873e98b29b2ed, 0x4d8066a06315d673, 0xbdff53c907b9adfb, 0xf52b37bd9799521c),
    (0x0793192ee98e2f57, 0xa73911ddb781380b, 0x061b92218fb0d794, 0x16ff47ce679703c3),
    (0x3c159af2d3c00815, 0x6298b33d8cab5ec2, 0xe8cd70773d814142, 0x66812783cdabe19a),
    (0x1c065141b64831c3, 0xca0dcaf2d805bca7, 0xfa9473b9b163fa4c, 0x35fa3c83d2f933eb),
    (0x23943e9e8a571aeb, 0x36c24eea0d3ee5f0, 0x97aef800b3b87441, 0x89c74c6abe4f3407),
    (0x3e9bf606619c174b, 0x6b417a2fd7bcf682, 0x69a082c5bd72fd8d, 0xd668bb3be7cbea16),
    (0x480648a70c24e511, 0xbe0e6d05d6d9a465, 0x877d3fd3428aa4b1, 0xa9e9e41de5c6b440),
    (0x4324bdda4691820d, 0xeb1481dbda3abb1c, 0xd5a05ccedf764b01, 0x317deabfd3e044f1),
    (0x6f2915f09c70fb22, 0x7bb6c0a4e7f134e8, 0x5629d9a5b547de9a, 0x9cf74fb851384641),
    (0x5f6d84cceaa1d3d3, 0x100a850dff27eb37, 0xf63db619532cf272, 0x91d5b35713ff215b),
    (0x2fcbf6ae9d4cdb27, 0x6ea017df3d2ebec7, 0x67c2b7fe1bb8558e, 0x9a6e3322ae63a62b),
    (0x408c45f73c4165b6, 0xcd00567331a72b4e, 0x26d79dfc305da5da, 0x9b8fd34311bcff9c),
    (0x67799ccf850146c5, 0xf1ff10669a69189d, 0x943448ad0efea1c6, 0x14133324e1505a5e),
    (0x51ec52ac5329ecfe, 0xd2a65bf7694212c0, 0x4f47f4628de8c011, 0xd93afdad53ac9d4d),
    (0x006e70e25eb8093b, 0xdcf955a5364a868b, 0x75d3729d057e78ad, 0x8358204ee3b1f8fb),
    (0x50d01794d6f55e78, 0xfd516d212da55c3b, 0xb16f616032c3a8c2, 0x84c60d61f877090f),
    (0x1f74c3f88a37452f, 0x5fcd729af8fa1716, 0xe1d434d5a394e045, 0x7094f0563c31755b),
    (0x019487e8c5dbb68a, 0xa598be6e60a580aa, 0x186baca856104373, 0xfce6ef6cd87fddce),
    (0x4832ef55d38c938a, 0x015350f39b5b2185, 0x107dacce78ee4f85, 0xc47bbe5658e09ab8),
    (0x4a85d06c39d9c8c0, 0x0baa1c5dfb59ff29, 0xba80099912a56e9e, 0x8add6884763cd068),
    (0x41488ae48b74da50, 0x5eb63124cc93220a, 0x6528420430bcc573, 0x38be26231ba3755b),
    (0x21b5d82ddd050ecc, 0xa07247349ae1aa49, 0xc63d1d52941fbab7, 0x3e5060fe8595e30d),
    (0x5c9b5273d97bbb50, 0xdc4cb6b754f15da0, 0xc9ff93a61d75f439, 0x5f02f0f4d173067a),
    (0x0a062f37f718f4c3, 0x7a8c2bf9ef2f7c4a, 0x2119ba043eb6ffed, 0x51e0b5c55b7a247c),
    (0x159f9276bd128ed2, 0xd5b09f5fdaba71bf, 0x13806df7a17df30e, 0x6ed08086b8dace0e),
    (0x397cf7ac45224459, 0xe819581c1f2ba641, 0x2dd078820337ecec, 0x0d6a883b83370198),
    (0x32e654ddc435855d, 0xb6a681a4134ce1a7, 0xf85525d0dde7a8e7, 0x365f36d6b8acb385),
    (0x07245288af44bddd, 0x2f744d5e093ea7f1, 0x00de626fa216bc30, 0x44516254939edd3e),
    (0x61266cbaef88498a, 0x8255902e3a0efd2e, 0x45563158c8d47c75, 0xec9af41d62fe128e),
    (0x73157756a167275b, 0x89ecb982dc3d2fab, 0x484c7eee1d0800df, 0x9ea07712048c9d2d),
    (0x0c0b409aaa3a87cf, 0x5c0504c624b23570, 0xdad7fc9ae30f1f05, 0x6996bb6a7b2b5c53),
    (0x03801ea9c955bbc5, 0xc32ff8d8d3174bcc, 0x2f4f3249b711090a, 0x4c963a784e06c554),
    (0x17690270da56baeb, 0xa4e614f7e8780b3b, 0x15201ac3d7ae406e, 0xb4dbe811f8b13956),
    (0x0779f987f90f1c4f, 0x8e319418659d4bd3, 0x3ac790e8eb07c153, 0xc28aa089775dcf38),
    (0x2f74df84cb03f57c, 0xa5946f15f2fb134d, 0x42a3288f32a5d5ff, 0xb1a9fe1d2a391bfd),
    (0x6ddaa41db23ce040, 0x5078e68938a27c03, 0x86674531648061bb, 0xd79359c91f32aac2),
    (0x2f49ab87e23a5d39, 0x2c5e457337342795, 0xf3066a07f987de09, 0x1f325ac32b8ba72c),
    (0x0efc38d20700d5b5, 0xa3b055be496dbdf8, 0x2b0ab3e07dda2a0d, 0xf3b16c07b02dabb4),
    (0x6f5ab923c9d18fd4, 0x1b977c0f544cb9af, 0x853dddd00734b01f, 0x9280145a1dc7cfc9),
    (0x0903ed0675157f66, 0x29cff37a2055f827, 0xbdbea9801a09fa7e, 0xe01c66b108265b8b),
    (0x700f5c0c5990d424, 0x34a15bc34c228500, 0xc52f0441de841978, 0x3a1509045d2aaf8b),
    (0x6a0e3381e15190ac, 0xf36abed91ee25dc7, 0xfde5c90a3c5154a4, 0x329b2662188c2cb8),
    (0x4757ddbab350afd9, 0xc61e7a748d936388, 0xaa9ff3709c64a080, 0xab9f28646d1d7181),
    (0x60f9d0c0c463bffe, 0x9c08d557dfd5d105, 0x4a98f32c04eaa80c, 0x49290cd45897b2a7),
    (0x0720379ef288498c, 0x5e6100d19258c915, 0xb32fd1f76a7878fd, 0x3575137b695e5789),
    (0x2265c46e022a5ef8, 0xff8e9293803aff7f, 0x15ce0814a9edee3b, 0x1d546c7865407e3c),
    (0x1206dc6f2948499c, 0x0a2d173e0ce48508, 0x70a8b1957d362ce6, 0xaad3603084cfb48a),
    (0x3497b1b2410e8b30, 0xf6c09dd43d54aa97, 0x55c4bdaa743f8af7, 0xdf57486dc70786c2),
    (0x1ac1322d723d7d2c, 0x9e8a475140bc3991, 0xe124c7752dbe38d8, 0x3ee03985cab3ec06),
    (0x06d7e810be676181, 0x52bb71fe9246ed83, 0x90e61d21fdaf4d35, 0x7d67bb5de77df230),
    (0x0ee137d56d3c1f10, 0xaf868ae52affaa93, 0xf1900ef4b9365632, 0x2c7f295f3949436f),
    (0x21da6fd7aaca1d90, 0x0c16ab0292cbda61, 0xf3c784d2ab0efe4f, 0xb1b87d443b54a76a),
    (0x1db1c07b4c58b4ba, 0xda79593314f41f00, 0x50a88831ff9f9073, 0xfb31114e0e67285d),
    (0x5898c5429b336972, 0x114192ac64c52260, 0x82c3b2fee5a63a86, 0x2fddba0789d6a473),
    (0x6ce149f5c89369cb, 0xae1a7da096eb5b0f, 0xfdb885dc1916c988, 0x4dbbae22e6db34e8),
    (0x312b1c75d7428aa4, 0xddecc9229f9bfccf, 0xd4be6ef3ba7b16e0, 0x4c6021255d1de0d5),
    (0x08ac2c7ded2c05dd, 0xb49ae7ac6102c229, 0xdde9275c3589a88b, 0x40069c8c3cf236ee),
    (0x1725748fd880aabb, 0x1d6453669335fba2, 0x32e6b2d25e69f3d5, 0x6a504a3e5b05d76e),
    (0x248998a735f44fc5, 0x24d9a3854e5d49e3, 0xdd1487e334ab8609, 0x558b89a5db585558),
    (0x51327888436d6fa1, 0x820a24f5106403e6, 0xf3cf35a5b2ef9148, 0xff6aa6eceef4656e),
    (0x0c8b5a14aa194279, 0xb5d7676414246a40, 0x756786c8718d30a8, 0x7d643d9320c4ec43),
    (0x4dc96baa6c646df7, 0x036040dde9349b3f, 0x2ee384cafad6de95, 0x4f4cd861069b2481),
    (0x718209ea4f77c3f7, 0x6ecb439d05adf0b7, 0x0294bad752b6c7f9, 0xaf5711ce87be65a1),
    (0x639a0d20110526ea, 0xa343c723af04d126, 0xcd523ec21cf43d38, 0xb35398a0c56265b0),
    (0x2532f06a0066838b, 0x5c4cb4ddbd2e619b, 0xd7a9a4e37d4def67, 0xd20cd24cb8e67206),
    (0x6b6d6b0887e56beb, 0xac8bd69265d4ce6a, 0x00ba7470d0168d65, 0xa2d25523900917c0),
    (0x49f013fd9c831d3b, 0xbb0a371937ccfc30, 0x2a424cc46d4ec08b, 0x5f45ac52ac31e8cd),
    (0x394e2a96c15cfa8f, 0x3ffcf5cb63264101, 0xb5c86f3fe92be4f8, 0x42eb456d57295fe8),
    (0x1ac743d177683ccc, 0x6719998182d6b7f4, 0x31f1251f47a8446d, 0xc256830a359a789f),
    (0x3e3e342fba7c1490, 0x18bcd2cc36ccff80, 0xa7eb3284f044cb5d, 0xbb9fb325f3b4b9f4),
    (0x3acc235e3731adaf, 0xb4e9d9ef258e17f2, 0x7329ac022a49b127, 0x205de91ea9322c8a),
    (0x608afd9af0e5cfe0, 0x7f12bf3316628eb8, 0xb9942121bfbd43ff, 0x7fe22a479aaad604),
    (0x0ff89b10a1c9e65e, 0xf3a74ed5f7ac9892, 0xac86faefc74731fd, 0x2b600834b186aac4),
    (0x52f4e44f6d3341b5, 0xbf59399c6d53490f, 0xa8908e38e24a6142, 0xb90e5cbabae26292),
    (0x38ee391b76fd7389, 0x3fb64102547ca12c, 0x03cae780df15bf46, 0x727e57d07720575e),
    (0x3aea1da1370f5f1a, 0x3e7bec277a3cb39f, 0x286f3f00e82b701a, 0x359c041bcf6d9b80),
    (0x21527c01d8037ea8, 0x5f26001543e0caaa, 0x27114f3d00a155fc, 0xd4038a1fef06f0d9),
    (0x60fc95ccdb1cf5a2, 0x700a6d66c7178bab, 0x18c5aaafd1d84329, 0xef0521f72a45ca71),
    (0x5ab6a484d0d3ecfd, 0x4bf7d02da51f2d33, 0x5fbc16bcc6d24beb, 0x6c2cd1730ed46c1a),
    (0x4ea32259f9226d6e, 0x3d829d55ef0dfad8, 0xe8c7b83293358e0b, 0x9f899b54ad0bb82b),
    (0x05b6e5b66f488a03, 0x78388224ad8c50eb, 0x6764df75505e02e7, 0x13c95dfeb07da075),
    (0x31712374e5e6154a, 0xd9e2c9d26e6b2b80, 0x4755971130c2d1b9, 0xbacc151872e69e19),
    (0x1e579ccdcfed1c91, 0xd2fbf8b171f7c535, 0x2a986493bf227e5a, 0x9b1b8128a512646c),
    (0x2a2acebc6ea9b7b1, 0x170331b1f5fa7317, 0x6ac647a25f590752, 0x552d88120ad535d0),
    (0x49153077b745ebc3, 0x292e66fce38393f3, 0x0524d2d3514b284a, 0xed7475e849d74e32),
    (0x5375d9a81513c847, 0xf8c5f072049c5901, 0x1dcacc7a8ded4dfb, 0x0ce8d89e3a997f14),
    (0x435d971e1eb8e448, 0x21c6c1ba05116256, 0xfa79c35db080a09e, 0xf7e24f59f420dd45),
    (0x58503b3a94f09694, 0x1dad28f1caf856e5, 0xce8f43a87505bc82, 0xec4eab08149fd5d9),
    (0x3875898530fddee9, 0x3f088fff6afe6998, 0x548c24552e1ce79b, 0xfd6989a34f91dba1),
    (0x19380c553178569b, 0x69ba13e029af8a40, 0xe2753db62df5a0a7, 0x0c13b6105f1e3daf),
    (0x1c00372679acb246, 0x58db79cde4b98711, 0x447ea35fe771de55, 0xc9addc7ccbcfcbfd),
    (0x6b5dbfea22d86bd8, 0xbbfdb5d787f2d588, 0x30ae60032ff2e463, 0x9e1508c8fc6b5d80),
    (0x4607d1076850ad70, 0x4386a117a214e6e7, 0xcd0fe5ffa9d88eb0, 0xd26b3e803201e641),
    (0x0f91e67891be0164, 0x227f53bbb878dcf2, 0x4262bd48a3003e35, 0xadc2a55de5a47db6),
    (0x45996205840c4b3d, 0x5c410afd195a0646, 0xc8300255f65f994e, 0x608dc7889d9f2e5b),
    (0x3ead3e9e499d91be, 0x44dfb36a1ec2d0e6, 0x06a736e0ab546d44, 0x54e12835352fc115),
    (0x1598c26031f70fee, 0xc9e034f64b1d9a36, 0xa695d767a26bfa59, 0xcee0cb445eb4b307),
    (0x1cc0c0f8eaffe378, 0x9e3b439093440f1a, 0x60b921721763d410, 0x55c78922b871b03a),
    (0x48703d4aa9bf7adc, 0x5e911c7817d88968, 0x569bc88162ad297e, 0xd48fb42893150047),
    (0x5593e8d4c35eb09c, 0x60c8b0f998419159, 0xd552513affaa6ab9, 0xc34a07c3a577fc78),
    (0x1d0edcbd6dcddf3a, 0xe0a64a0cd44eb759, 0xf2330f172cd4ed00, 0x7a041ac18c5de850),
    (0x328371fd8f5642af, 0xfaa80772e382ba08, 0x6b4aeae25cf32cb1, 0xfd6a03f4c17434e3),
    (0x37941017b7862ded, 0xd6d93c13b7f08bb9, 0x32defcd29c70d1b1, 0xd5724ca40c29cc72),
    (0x10c59d50cb8d8d93, 0x9b2b97163b5ce65d, 0x63d4b0a58522ff95, 0xaddfc01620ef0100),
    (0x0d5b533b43b0b27d, 0x9b64551c7ceaee9f, 0xb0b6b9061d133261, 0x47360615dda11212),
    (0x636375e8e3a62551, 0x030f9dbe7811775d, 0x90b697a161936075, 0x6afec469adc3f468),
    (0x16ff3d1de7193f4b, 0x98611664a8b64cbc, 0x4fe39ddbd74337d8, 0xe347e4bca730cd94),
    (0x1cc95775b2716b3c, 0xdd35e56a7c7b2497, 0x564f9f44f202e18b, 0xaf52d064877a4eab),
    (0x36daf37534506831, 0x829b7229f6b34c50, 0x20846e98e02eef2d, 0xb84136c910ba1594),
    (0x61a68e2455dce0f6, 0x783ef9e5131db78a, 0x998c62b695a83078, 0x485b414f5f605e5a),
    (0x12b11dd703fc60f2, 0xede9f64b5050371c, 0x32fe393d86a33419, 0x96fc4210069d2a22),
    (0x27bf254291de0508, 0xe8b83ca24a6f9412, 0xb5eb98ea795b87bb, 0x1040e411c2a823c9),
    (0x35f4aa5fe745e6e6, 0x5654e48e4b395290, 0xb2e872dde27245f0, 0x8910ef4e0ff34b2a),
    (0x24fdbbb549e57cbc, 0xcc5914748a55d3f6, 0x4778f957b6024162, 0xb89b3a3de13b1911),
    (0x22485592115c7396, 0x684ea68c47390d13, 0xe784c29e5c2f1d15, 0x997bbad58557a29f),
    (0x2056b61a624a8560, 0x30a66e540f7a878f, 0x418adf12317d3788, 0x69140919a33d02f6),
    (0x38df7ffa7f9be7b2, 0xe80f05da1af77469, 0x3bb3f59d13c3570b, 0x242096fccc6b1601),
    (0x35b15b6c4c7bf09e, 0x1d9eebea32d2c9ab, 0xe4fd1abd978480c6, 0x37aa42b430e35637),
    (0x255267e1ead997f1, 0x66dcf53f0d0cd7e6, 0x9a8199a11950ceb2, 0x515f8f8667d06763),
    (0x3fd6bd225026a467, 0x3ee244b3ba4e49f9, 0xff5dddea1238c4db, 0x69e1bf5d88a85020),
];

/// The MDS matrix for BLS12-381 and width 6, row after row.
pub const MDS_BLS12_381_T_6: [Limbs; 36] = [
    (0x425fe54467f6a657, 0x583b7421cd9f51f5, 0xb725c51b38b607f9, 0x11ddbf8866336cd4),
    (0x2ab64ffbd0994fb7, 0x84185aa56df9a47b, 0xdff38ee28e45d37e, 0xe359cb6798f12a39),
    (0x25e24c5c5df182f2, 0x8bac4fef6477774d, 0x77448975ef37edf8, 0xeecaedf57c4fbe0b),
    (0x0f9bc0314c79f8cd, 0x258a7dd088af8fbf, 0xa2038283568a99b0, 0x56c7fefae646f16f),
    (0x15eb44040c8fc2f6, 0x3b2a97ba4e7288f0, 0x8c56cf02713020dd, 0x894bf6d3b16f28d1),
    (0x2977f52bd36507bf, 0x88d12039eacc7b84, 0x5573f34a9b08a7b7, 0xd91f37a51750324b),
    (0x0c562198d1dd30f6, 0xfcc76b085748a22b, 0xb20fb12576db091c, 0xc44f4c95904cb4c1),
    (0x70b50fbb8ecc7e51, 0xadf5b4080252820a, 0xafefde2612af5e87, 0x265632e8e77a7adf),
    (0x72628663e48e5e0f, 0x3e79111b09d2e8af, 0xee7e366f1a93c77e, 0xf4928df8f608d3f8),
    (0x009ee6c4c6611984, 0x571299e8e298e1bc, 0x90a1686a38f024c9, 0x0de2177459e71afc),
    (0x62fd0d22c50de551, 0x23b0f4c773da9519, 0xae646b91762c363a, 0x49473a7f01a6cb10),
    (0x3f204d25f76b8ff2, 0xb39b2c2f313da166, 0x3269475091cb9523, 0xcf2df0d73ba3d008),
    (0x25ea7fb8b51a2e14, 0x4d69aef4fec78d74, 0x57cf55dbdafdcdd2, 0xf7dceff5c419b60f),
    (0x55044724c2cd24d6, 0x5221417b82848aaa, 0x7bcbc6f3bbff7c88, 0xe537fd2b2ef571a1),
    (0x6ea0eb5ca8fff8a0, 0x53d832b957e05629, 0x7df3e9cc5870394f, 0xa7b9fb0a48f18ba7),
    (0x2ef8704e2a497fe9, 0x34a3ac59c6894f17, 0xe8eb36a1e101fbcf, 0x4f4763dbb0ca8b6c),
    (0x4720e565ca1ece6d, 0x31869f13d5f9aec9, 0x4f39adcd2d6a8bdb, 0xdb96acb51fc35681),
    (0x72787da85edce9d3, 0x53defb56183ae930, 0xf5a493c369002a4d, 0xcb915c07b62db2e9),
    (0x2b2181a2bad913b3, 0xb35c36bb9eae66a2, 0x1144dff7e68afb82, 0xd38f3b0e733137ee),
    (0x3e49e8f60fc7aa3d, 0x141d5c62ed02370b, 0x2a49062612d15565, 0x01b5a0ac1994ad9a),
    (0x1b5ea165167acaa7, 0x83b136e9dfce6ac4, 0x95f097500d74d0a5, 0x773709a7c0bf1a65),
    (0x683f036b7ab840d2, 0x7b1616765c275626, 0x139e7637fd0a2e0f, 0x6ccf097caf982352),
    (0x1f8182593fe53060, 0xf12be0914c322b33, 0xefb7d5825e61d58c, 0xfa6bd06154149167),
    (0x48ab02da2a06baaf, 0xda2d35a214a6313b, 0x71d5026c5d8efe17, 0xba3c2d18ea4a56ac),
    (0x464b9d0d12bdc744, 0x8a19994743a18288, 0x824cdfdb1c9dd794, 0x025796ae2db0f76c),
    (0x70fd6c3d63092a22, 0xc8775595604bf858, 0x2629b63c62909b06, 0x75952b734a8cbf2b),
    (0x000e14f8583665db, 0xe5788d8842cf4d88, 0xc038deb683e3503f, 0x804f1888212ae310),
    (0x4bc4686758093929, 0x997d950e2afbbb30, 0xa1351201d5049c73, 0x1b74ac9fa6f53442),
    (0x3e4d3d1cee6c5eaa, 0x0e0dd792eec9ddf1, 0x207a9613c07fb74d, 0xd16bf6c5dccaad84),
    (0x088bbd93c484280a, 0x641b01758ee1116f, 0x872b375e671b9362, 0x91f4bcf4a96c3e9b),
    (0x373528c070f75549, 0x85512e1b0696a997, 0xaf321558b51890a6, 0x16cda604d6920f36),
    (0x1b2c1e4576d3440b, 0x093226e5c7e9c6b5, 0xeacde5cb6caecd7b, 0xf64189435c23dab2),
    (0x6beb1e5f1845783d, 0x6a080f8078c42281, 0xdb80ea6d2c96b055, 0xcc64fa6e9df2a2a5),
    (0x6df9d25ed60832e1, 0x7e55c18f6f89c758, 0xb0e063045cf5dc26, 0x8cb6375b122b4c85),
    (0x10b46f7ff90c26b5, 0x09c5ccf21f5e5dd6, 0x3b8fe422742fc857, 0xbd0a6ec5fc32e181),
    (0x2af76dc8e41335f9, 0x3fb8e29991ec3c4a, 0xecefe09ac69c9fc2, 0x53313bc596fbd3f7),
];

/// The round constants for BLS12-381 and width 6, round after round.
pub const RC_BLS12_381_T_6: [Limbs; 390] = [
    (0x37001926ca5b7277, 0x64362491bd55d43b, 0xb44e1bbb0a908367, 0x12b69c4b87ed88c3),
    (0x2202245c840f4b72, 0x8a371ba5aa3c79d4, 0xcee76204aee8ffff, 0xc7f7a0af5922514b),
    (0x72c141efe2f2bb27, 0x806b11a85d777e07, 0xd8fcb528b67414c4, 0xc5446f38219b5678),
    (0x1a2685d83fb87968, 0x48f571f86d7bcd67, 0xc28c4b4b32a82b5b, 0xf08cb47126cc325d),
    (0x11387e2b9c442f0f, 0x50b47aac53cf10a1, 0x47b18acc04451929, 0x5fad1ca6535b0319),
    (0x130998e3203b6cbc, 0x699636e50c7f55b7, 0x765c00425273951e, 0xe210e8630852e682),
    (0x351fee3418ae8a01, 0x06f810ff9c72f49a, 0x501f4397f0b0ac0c, 0xb0d434005462473c),
    (0x70568d69654e07d8, 0xca11803f25b546bb, 0xeb487ee71bf54248, 0x5676517042f32462),
    (0x3e6c341293cd8349, 0x58f36b7c2870b82c, 0x9e484c862e7e9af7, 0x8e74cb99d07f6bbc),
    (0x59537cc83f5019bd, 0x076c4fac53782f8c, 0xcfc4523342a9fc02, 0xdd8370d8a7c71453),
    (0x57972eb245a10abd, 0x78bba9cc34d2c825, 0xb4c1d378566d2ab9, 0x99208e332371fd04),
    (0x47dcb184035bb3b0, 0xbf71c68ceb03b5b0, 0x4fd8ea584caacd93, 0x2e547495c96dbd21),
    (0x7131aa9666e26677, 0xd089fa2c519016ae, 0x5401e8d6d2a63bc4, 0xb1a7e8da4a8d07cb),
    (0x6e1ddf8b62e19333, 0xf4ac994495fa8471, 0xddf317b4e0512be4, 0x392f71a9ba5bc818),
    (0x6a0a8faeec3c5335, 0xa1a01197c6099c48, 0x05005bc9fc215506, 0xda86333cc0f0f888),
    (0x1db82b4a7018e77c, 0xfe0484d4665846fe, 0x36392fb89fa4150b, 0x762d8b9efbce0fe3),
    (0x3bbcc04620fd9e56, 0xc1a1c5d9d7b2b633, 0x9d2d74025cc53cf5, 0xb307ba038a233646),
    (0x1884c0d6080d5e75, 0xa141a85f08ea2893, 0xf9851834454adf67, 0xfba103be548923f0),
    (0x6e1deb1e49961e09, 0xad487af2ed019a2d, 0x5cc15ed35aefe016, 0x37c5394bb74638c5),
    (0x1132632ffa93706c, 0xfa892bdd199f51bf, 0x4312e53f0b06056a, 0xfa2cfc1a98158b68),
    (0x3eab9a09443a62bd, 0xcc2d3dbf81fba818, 0x286c66033c31f426, 0xfde9e854c817436a),
    (0x6649e5c780f4631f, 0x58ba235b53287d69, 0x22655aaa81b9c2a9, 0x2e1c278d7f850446),
    (0x4c34d8b525c924aa, 0xf504fb7e7e825919, 0x0539c2c85410913d, 0xfd7a3b2f06219e46),
    (0x3da150d89598c7ab, 0x8a4a75d7f6e5e86b, 0x018859c81fb598a4, 0xe31b038fa1ec043c),
    (0x02adc3efbb08bf6f, 0x6c74dcb05a0c3f8e, 0x2c44797c9e8d0d93, 0xb4f8b9681ab6e617),
    (0x5429184ba219f043, 0xd4743e6a77db0d24, 0x0c234c6590351bf7, 0xc2d8cce0d5d20153),
    (0x71e14aa0046b1eb6, 0x41be2593641c792f, 0x2998ad72e358d84c, 0x24f5fde79917c2b5),
    (0x4fdd076d112c5f90, 0x1575976c78de5e4c, 0x4cdf764217e86b6d, 0x1fe4e07c3555c81e),
    (0x1418af3d861bd3ff, 0xad771939bce3e585, 0xe68dd84dfe212f70, 0xc0593a2652e777f5),
    (0x14f4eda2b64d054a, 0x45a40e1cab9903f6, 0x6a2967d2a8b733ae, 0x1bc49e8e7261ab77),
    (0x11450f487ce8a986, 0x4f6b287ac85743bc, 0x05a440b7837111b5, 0x96ee9ece4e376391),
    (0x62588af4ecf68b1b, 0xe6f8a7710f973256, 0x8f505c1d0c9a870c, 0x7e495a276d4e6a41),
    (0x09a2552bede234fc, 0x1cb6a239db4b53f5, 0xa04ff452fccab290, 0xb830d9def18a2dbe),
    (0x6065723105e22bb1, 0x54a3d0863cf2f2fa, 0x4674b7ecd3f88401, 0x1edc17e85b1f46b9),
    (0x2499207ab0ab705f, 0xc5428b93de519d7e, 0xe96d20e312ad25bd, 0x2f22685f452663cc),
    (0x37b2454dde4eb4d3, 0x60b741c050f26567, 0xbdb2f6236d395af0, 0xf1efb0b30d590cdc),
    (0x6b2751b53b5e4348, 0x0b06ab8c7e8a033f, 0x3a9905e492e9c0d8, 0xa822eb8a5d43de79),
    (0x5f1fbc9c2740b548, 0x24533a3edf85f893, 0xb0f30c5c910ebc20, 0xd26c4633b67f793e),
    (0x5e11fabf825cf746, 0xd511068a65b01746, 0x57d2f7070966e3f1, 0x3b87ec9a1b10a171),
    (0x38ca60e435d01e3f, 0x709cd58fbfba8436, 0xd75dfe942fe47cc6, 0xef47a953fe6ca279),
    (0x0c9c9c812ca7ab47, 0xb1c7753efc0f996b, 0x85d5960d4f72d95a, 0x0df3ca234330d3a0),
    (0x12ce83b428a51076, 0x5301bc784fe539d8, 0x793cad75b16fb163, 0xf90c7cb7cd8f4307),
    (0x0a17bf49a0cf0e4d, 0xd41ea5cdc25ce00f, 0xfba1f8ccbe79f238, 0x69740c39ace3672a),
    (0x62623e66605f4989, 0x7c4e102d65a8d349, 0x8616b001c61fa934, 0xf5c3279a6bfa2cd3),
    (0x69c41d364b71936e, 0xe8f86e8c9974635c, 0xbb80696b8a67f977, 0x52c209a4a8f19db7),
    (0x2d21666566774a75, 0xf025b352d0381cf1, 0x1804da3878967594, 0xa65587f9548e5de8),
    (0x4e3790e837026f0f, 0xd9bf88bb10b5582f, 0x6244e099e93f67ad, 0x6246ff5a1febc7fa),
    (0x53dae7efca912af0, 0xa66d9763a5a0f2ce, 0x41791e2026ad6b61, 0xadf3caad2ee5e42e),
    (0x44ceba36dd455d9c, 0x6e011843a4d7d8d6, 0xfeb5333d4a4d4b93, 0x9fdef35b409297f4),
    (0x51d39ec3af94f016, 0xc3a62f7f7885625c, 0xbb7a4c73ce1e87d9, 0x23c1f3a751385233),
    (0x53b3234cd8a2a207, 0xe2384ea5a2a11094, 0x701a671ba45b8139, 0xcd8ce377bcdd1cc4),
    (0x516a4317a26a6714, 0x058530c9a70953c4, 0xaec0c351987d61d4, 0x2476d5a65a044baa),
    (0x71fd8bbfeb58117b, 0x2bf6de51814da2f5, 0x3ca9446dfe0648e1, 0xf24932cfadba1384),
    (0x0686e3be65595e77, 0x930f6096ccdbe9b1, 0x9763ea82d853ae5e, 0x4fcb4fee1ad28864),
    (0x2c48fc691f2ad7a5, 0x24116ada6a39caf5, 0x876938ad6fb7c211, 0xad76998ab7f23b71),
    (0x434489e6c93fd95d, 0x27f93360fc291bd3, 0x37abcd56d4855925, 0xae386345d1488a07),
    (0x5ca594bcea611d6e, 0xd977c3b4d9e383b4, 0xa01d87dd517d4afc, 0xd55241515e51c772),
    (0x100f3524a92f1213, 0xffddbed9a5dfa6fe, 0x11875d7a45bf3bd4, 0x3660a614bad7124d),
    (0x05ecb03b2fb877f7, 0xb7f966fa58bd28f5, 0x1cb04bca15060763, 0x96cfa0b1b7fc2f9e),
    (0x191351d276eb43b4, 0x698e771dfa1e1c2e, 0xa7d89cbc7846db99, 0x2f0ed432cc469e21),
    (0x186b91e796b86e63, 0xa36a1944764f7c63, 0xba51ce4edbc77e89, 0x5284233214d9f558),
    (0x2d83907627e187f0, 0x774137315eaac46b, 0x560edec00d8624cc, 0xc53af8af16c5d10c),
    (0x51d1b84abf5e9164, 0xd0f83e66d0e77e5b, 0x98a2ee08d06c3ee6, 0x61d648c32f8b6d86),
    (0x6fc246c280a16f81, 0x89a4a332a10a41c0, 0x3d90ff06b4194e7d, 0xa168fe2c5c47720c),
    (0x146e82fa50c16b7a, 0xe32be5587c5ab731, 0xb06032d433d5ef48, 0x0417f6814c059bc4),
    (0x5675036ceebde73b, 0x695c72bbe2f1db54, 0x05341a31256148fb, 0x47459047a84946c3),
    (0x4894e9860f7afd70, 0x0343277e96f75681, 0xe60d5420617041ee, 0x039baee9a23af773),
    (0x437ccdc734fb5472, 0x158ab41ece19fd1a, 0xf07256820712a467, 0xd89d709510331528),
    (0x12c1bf1ace00c01d, 0xcfa6f70b412dcd60, 0x304e13927d39243b, 0xc655934fdf1c4c8f),
    (0x151506655c72c0f9, 0x279537fd205e510a, 0x0fb11039aff98199, 0xd086658760b458ee),
    (0x008059479c7a33be, 0x043d74f7b5e3e06a, 0xacbd18dfdb39317f, 0x275c98eba42bae31),
    (0x2ae888270d8ff9ed, 0x213d84a23bb92663, 0x35c0b44a93bba311, 0x93af8036741bae22),
    (0x693d1fcb23f5329c, 0x9558eaa2d3861d2b, 0xbd5d48fb683a9889, 0x73d31b2200f35d39),
    (0x63890907769ca4d5, 0x18632438e1204ddd, 0x1f178d2ff0770c19, 0x8fd319d2414e7de3),
    (0x1c8f60f19bcbb743, 0x838747a23f8a4992, 0x54e4c49c0e1dd952, 0x37d74ed5d9e2ee4e),
    (0x4b609699ed04acfe, 0x23baeed09fee8a0f, 0x2ebeb409eef889c6, 0x87687c203ce9df0e),
    (0x6d39d41d12386052, 0x1f05098be49c22bd, 0xacc93453243c2270, 0x5309f57efec9c568),
    (0x72f2b93244ff3469, 0xf8134c1e2c885af3, 0xf0d0dc035c90b946, 0xb48bcbafc14139ad),
    (0x2f670ec8dc8de9c2, 0xd125e202b2b49103, 0x131f0760721315de, 0x0a4a12dca188ef8d),
    (0x5e774e3fb1005fd6, 0xb020c4fec0dd8de8, 0x17003af30e038120, 0x3a9a2a97406bd230),
    (0x54ad9c3c53aa055c, 0xc275fb9e2314a5ec, 0x1bea36a75b99ca4a, 0xfe3e680c1af022b6),
    (0x05da4f9f73065738, 0xd892a9f87111ad81, 0x2ac55e8969725d9e, 0x78ce257174a18815),
    (0x6cc6cc108c67d40d, 0xea69306cfeea5d52, 0x93d320263babd6ff, 0x273d23f4fe5b2f47),
    (0x705ebcccb34550f4, 0xcbca41d53834069e, 0x816be8d988bcc0b2, 0xb61bfdf352dd2ec4),
    (0x1bf42325c2d7ca18, 0xded594be238a5d7d, 0x2dc432103baace7c, 0x0d587670bba3fcf2),
    (0x2890c7b7222e20a2, 0x1ec2020c2699c74b, 0xb7980086fd15b10e, 0xdcef9ea3596ac121),
    (0x03369be7ab9f6217, 0x3bd212118fcf2878, 0xcedb38a5b6a596d1, 0xcd5bcf172947d0ab),
    (0x06e0c7be3faea15b, 0x58b139ff3522c085, 0x4672e2c01f03438e, 0x35cf4631c8b0a9f2),
    (0x1e3071004d1c58d3, 0xa16af9f4c8aec238, 0xa736a75971d05d04, 0x9ddc768d56d13022),
    (0x2e359f49b884b08c, 0x5d513c8a9c45be59, 0x82d5e86d1bbb69ce, 0x2e749e5d457bdbf1),
    (0x6f56c46fdd77602e, 0x3df14f2267eb618e, 0x98dc2b2423f6b974, 0xc92736b24cd46a7c),
    (0x3bcad96b88be24df, 0xe79cb808ab7008f1, 0x8ec522e25367162b, 0xfb8a12eb24aab699),
    (0x18ec28d0dd9dc402, 0x3cb435f5d92709fa, 0xd579ae8bad2cd0f9, 0x38c0c8219f2b7c93),
    (0x3b32c1829966a9bb, 0x08b64306e56b95d9, 0x43b736fb57dcead9, 0x38fc825188298710),
    (0x50de139a0cfda7fb, 0x06135d0e90a60088, 0xf48305d3a750ea20, 0x42bb73edaa06b0ff),
    (0x3e5ccb780ef6eb41, 0x0907be44796ad509, 0xe99f1c6bfaefc8af, 0x42076c0f6267ec73),
    (0x48405d088b80a862, 0x17a9b7d02b9c0d17, 0xfc2e90bf4eddc05f, 0x3ec8dfb2f26e5ea1),
    (0x33cfa5db93071c66, 0xf03f6dd3913010c3, 0xe143bcba6b49c715, 0xe642052b503908d5),
    (0x01d083f99d5e237d, 0xa18e0302cdd0df77, 0x95ddfa3fbf1fca43, 0xa65094970b3ca5f0),
    (0x4609d457a0155a1e, 0x52f3f1a31c1353a4, 0xdaeda36d4e1ac45d, 0xd5ec0a1a3680e02b),
    (0x26b3f624f77083b7, 0x225180c97ae1bc21, 0xec953ac89a6c55ca, 0x3e87a3943f5e290b),
    (0x6f8dcb78039a0fe6, 0x15cee60de43466ba, 0x1231a5bf4a32a915, 0x354c54ee82dbcd52),
    (0x2b982487671432cc, 0x6a9127bca38499af, 0xe23fd8b7888b12e1, 0xcec868935e057c78),
    (0x3359bc9afe1c6bb5, 0x9e5724a218b490b2, 0x08bb916f9f3b3cbc, 0xd5ef6b785cc048a9),
    (0x0570c61f2ba7b8fd, 0x3d86e52dbc60892a, 0x7dad77e8ffefe507, 0xce7580030f165531),
    (0x51d44116a4ad706e, 0x727b49c973bb3ec2, 0x36c8a3f3b77a0c78, 0xd1d998e1c51d3e0a),
    (0x41940508b7fe4b4e, 0x64ddfbc112e9385a, 0x1298e386db4ac160, 0x9c2ebfcc2a8f467a),
    (0x20281301d07f7a4d, 0x4358e5e3a3a4b3bd, 0x539446f855acb9d8, 0x24a10a82af058aae),
    (0x5b17ef522acfe31a, 0xa0fa70941df5b308, 0x0ebd1a63020ca0e8, 0xd1a66537c66d6a4b),
    (0x2b29728413956150, 0xe4a359bea172a7bd, 0x9d92364b40ea711a, 0x0aee291fc03b3b51),
    (0x3cdaf1464e39fe72, 0xb4409029b776a003, 0x58867f8f75d9e0ec, 0x0a6e19f1c0346b7a),
    (0x4ea1781132826bad, 0xd83f2b41c0b75e84, 0x38a45a86239267d7, 0x33334d367ac6daf4),
    (0x4f5b1519e0293b3b, 0xa4cf5986f0ed4f79, 0x875e1a440c9972af, 0xddd36a76a213e19d),
    (0x57f78606017b9f77, 0x7bfe4632ee970746, 0x9867255c382a83f9, 0xbeacaaf62af9a5f4),
    (0x5e1e287427982c8f, 0x63cf012d2566ab3b, 0x6056198718f141a1, 0x2e874b31fd05e076),
    (0x3f97775609bf43a7, 0x74e0ecf12ec01785, 0x2b05af25e28e5b11, 0xb403fee9e57d8e3e),
    (0x0ce8a45ad8e44446, 0x02d284b32ad4e567, 0xfae5c21d3573c977, 0x3d26be7f32b2a2f7),
    (0x30541d3fe1f44964, 0x48e5308c1686e967, 0x49a7e8b547475399, 0x828845e89b7ae33e),
    (0x33e2efe8282d9de6, 0x3019cd7d5eb6cdc2, 0xcb439db3ef70251a, 0x198afc1917c98ea3),
    (0x109c4afc3dfd8712, 0x769ee23b0ce49eb4, 0xf873174c1119b686, 0x43935e7bba3194c6),
    (0x520e433b2b3ab9a8, 0x158c3c1e95038b51, 0xe556bf89d096817a, 0xe4b615b7e4d8f7dd),
    (0x18041b84cf0641fe, 0xb495059ecaa02443, 0x6bf2f7552376aa26, 0xb4e791e334b694ec),
    (0x1d3c0ab2394d8f26, 0xf137cb45beb922f0, 0x107669daa51c3019, 0x8f51ef48af9a9dec),
    (0x1f6c93aa69e4f7d3, 0xe45bad3a37899bea, 0x227abd934961fe7e, 0xabb58d5a732cdd5a),
    (0x0f85e63d59533021, 0x0b9aa1de9d38ecc3, 0x53b7a96900427a2f, 0x2dc2dd716cbf30b7),
    (0x18a10fcdabe556e3, 0xc6bcce28c8235fa1, 0x26f7309f7137b797, 0xb07a80b7b68ad95f),
    (0x6a502089d8f4f05c, 0x1d460c31a1839b97, 0x2cbb00838310bbfb, 0xe7bfb51e9e97a4f8),
    (0x07488dd9baaa77f5, 0xe3eaf27da155f058, 0x9ed0f849f7359c23, 0x308e7392ad4bac23),
    (0x491565b745fc62e0, 0x1360d9c73583502f, 0x5fea59c0d41d42d1, 0x0369879f2c8992a6),
    (0x63be84f35be57c01, 0x888f719298fd5e87, 0x38128b4e27850d0f, 0xbad050bc4b0965a8),
    (0x322a64c5cad7bab9, 0xfffd6a846d482ab3, 0x52cf213e93ddf4bf, 0xb47ca4dcde1369b8),
    (0x0e23257c3db70c11, 0xbaef6290aa14a3bc, 0xb081310406821951, 0x62aed31c72248f6b),
    (0x30c34de767c3c7b3, 0x46ba857bc9e65a58, 0x9f549632cfd1a76c, 0x20e4b99c7a68d69e),
    (0x48f9c5c019ab28b4, 0xe9a85ba3b7ceda3d, 0xe272cec7e9a12157, 0xe9e12f3e626b68b2),
    (0x53dfe9a65dc95c8f, 0x78f926c165550c68, 0xca9808857296f94a, 0x09c902b50a2abe3f),
    (0x3c48db4ed9cbdee9, 0xabe5e688849add3e, 0x5a9ee6d4d950d5a2, 0x06d9348a1f2982c8),
    (0x5b131e8579d50824, 0xf49d6d5c1c3ff0c4, 0x207e4fcad58b7769, 0x9d7859da5ed45d2c),
    (0x3781f55613501d2c, 0x664aea8b3aeda9b0, 0x582f496e4b3c9d1b, 0xca8127bf9db86f3b),
    (0x6646671d23012078, 0xdb9a4f7929c1a49e, 0xfdbd0a633a2fac44, 0x2b05c2de7cb9e34d),
    (0x5469fef3ec8b8d35, 0xb437c269db4f23d8, 0x917d5a9d842935f9, 0x2eded4da5fd8a2ce),
    (0x6e4eb1ace1d61ef8, 0xc28d643d70e27b46, 0x029d59129599ffa5, 0x8084ff28172ad61c),
    (0x1e3832d4551342ba, 0xdeab764229460639, 0xdf2b9d541b18fe21, 0x813e762999f11ee2),
    (0x32792d00555436ab, 0xc3b36141ffa2dcf1, 0x810f6f813b5776db, 0x5175765a2eef8587),
    (0x72be6ce4fc8e0ea7, 0x4d7485c35358aff0, 0x86303a43420536e4, 0xb5ff265bd7477601),
    (0x32a88046a9bd2fc7, 0x8becfa5316e99d30, 0x5e705499628dbe4a, 0x2768614afcf410b5),
    (0x2a872a09a7160596, 0xf26958f0150ee9f1, 0x6ba455d83c5b6794, 0xda88c3b6e99fc84c),
    (0x6a81ce74d2874713, 0x1169d58e8ed9cb83, 0x690216dbf7862bd9, 0x71e216c413379b94),
    (0x3020253e13a0275b, 0xeba6f83f0d7b3313, 0x9892e74cd65c5577, 0x594b0cfe3451e25d),
    (0x51b1fd5d48810002, 0x9fcf4dc1f2f443a2, 0xe6b8daeacf2701b7, 0x673c3387b9c5d65a),
    (0x5cd911b78fd7a95f, 0x4100ffc58cadb073, 0x836ae8a01e57fbce, 0x5f159148b868bc48),
    (0x1599aa08115bac14, 0xd1e8f2618933bc8c, 0x9c34098466e0199e, 0x8172673e7360566d),
    (0x0374cdce11324b1c, 0x9a0b68a980b58cb7, 0xa73072a0f629b000, 0x0d7cae3abfcec50d),
    (0x4009793f589fab0b, 0x9d90be9e2368cb30, 0x6ed3a946b8d4a40f, 0x0d1d24bd124d2f69),
    (0x254d52a12ed8e650, 0x06e92dd8a783d7ca, 0xa45aa17c05e1dfd0, 0xd3778f03322f6b9f),
    (0x624837a640380ed5, 0xf65efb5813bf9374, 0xa4bc2d1228a73fcb, 0x3a130dcfb0cd7463),
    (0x10d8f948dd3fc752, 0x2a507d1bb6487a32, 0xb4091720d20bc353, 0x2b64c9ac751cea9f),
    (0x09dfee7f43c01e31, 0x6d34c7b7488815cd, 0x54f3fd2a2e1a056b, 0x5178968a49a41842),
    (0x41c7f0c960d7014e, 0x2e32e15590781d96, 0x809d5aef719950a0, 0x92f2445ce892f01b),
    (0x53289d8fce35cfc6, 0x286e6d01dfabddef, 0x3945f31f25bc3803, 0x53ee6b843e073009),
    (0x59015badfdde10e0, 0x46fb45d940bc1eb3, 0xa43257f333ba39b1, 0xf389d353867dbcbf),
    (0x4ceab5a7bb4de2d3, 0x360bccb9d7a820a3, 0x11ebdb243c95b6c5, 0x76b575161188d562),
    (0x5ee96faa33321dd2, 0x94e6f9dd7143ced6, 0x4705dd2c618a57df, 0xc5ea77c9caab3f42),
    (0x09bd552ab7ff6526, 0xdb6d5c5bcf69cd47, 0x7a5b3d3519203eb8, 0x70a3d8a45dc44eb4),
    (0x382fe963d77f3ff7, 0xe72d795bc42d8acf, 0x5a6ccb502e51e3cf, 0x85bb7e18e15482ce),
    (0x0cdea53d24f63184, 0x09782950a8de880c, 0x3d20215ec652a85e, 0x229b4cb7b5a06240),
    (0x2162e738850c4161, 0x731fc20c8b1437fa, 0x36f1e81ec7f29413, 0xb12c8c4b96fe1772),
    (0x0f4413b11df1e896, 0xe1be55a20c6d32d5, 0x8d0004fdf4f257c3, 0x14a1be8e38d88208),
    (0x5c32b5dfd956ba35, 0x9e4ef3dd113fc996, 0x88c312a3f6da0b7f, 0x7fee983e86d4b851),
    (0x3ad6949db0d27928, 0x738111f3d53fe213, 0xeebf82f160904bea, 0xf9b33fc1305479c2),
    (0x4669923cfeb83712, 0x24d8fb9d63ad4d5a, 0xa007d9f710f6d54f, 0x2ab9ebc8488fe362),
    (0x56e3bb857ca6ccb5, 0xf21f46f719e5b039, 0x4a3d49cf55b0f576, 0xbd4d7df4b7385ea7),
    (0x45f6296f7ec7710b, 0x48415e5e5a356dc0, 0x1824c24f29cc1884, 0x62827bdc0fb1bcd0),
    (0x0f51c8e23f19cc66, 0x2b2e53898c8b6d35, 0x91af68ddf4f9ee8c, 0x8db1d3a676eb9141),
    (0x211d5a617b22f043, 0xc3295cdb5afbf89a, 0xe0e536d6d51f0c28, 0x5974e75a2cf5308b),
    (0x2edd49ad54d5b8d4, 0x7a26a769e7d82b66, 0x6c266a09f5595af0, 0x9834bc30e5a41b8f),
    (0x6ff11a67731efff4, 0x6fa4097538bff1ec, 0x032049f52da41a44, 0xe5787331a3ae6f6c),
    (0x022fdddab2deb96e, 0x35fb72465c68be41, 0x521e4f4415fec9c3, 0xa50b12cf5c140e0d),
    (0x292703c108da22f1, 0x246643a5bfd882d7, 0xfe99035de82ff082, 0x4551cf4a77422dda),
    (0x4a2a919e1f27b502, 0x7f01496e91e59ec5, 0x0f6b86e7adeaaadd, 0xe76c817f083ebb6c),
    (0x05feb3fad65b84ba, 0xa350f6bd835f7fd1, 0x2da21f7a3afb3078, 0xfbb3282e075a78ca),
    (0x179fa5e86477e212, 0xe07e022945fd6432, 0x4adf9f3c4b026977, 0x5e920e26d0aaf4c6),
    (0x3eb6008cc12ef130, 0xc86f1047ca6dbfa4, 0xf9aaaefd1bdd07d0, 0xce0aed93e4e74302),
    (0x394e0867237327af, 0xc8dedb163a0a7268, 0x704c8519bbaadd29, 0xc5aa6e240df2cae6),
    (0x627ad476fd0a3538, 0xb1b6f6ff88dacd90, 0x1a309fad888930c2, 0x3de23ea02b9ee39c),
    (0x2b803314045eba22, 0x31d7ddd4bff94407, 0x62873838c16926b6, 0x2fe499b332def50c),
    (0x2cced7e041985a81, 0x8f992df77c8fa43a, 0x9f69a3af455ba970, 0x508a6a96231ceabf),
    (0x436c3129841509a2, 0x5fda43df77cbd529, 0xabcf83f15ce0cd2a, 0xcb10f1cdd0b07fb3),
    (0x4f219240acd415fb, 0xad183fe18460aca3, 0x920d7c6804677104, 0x0d7e70ed9f96ea6a),
    (0x19a73c1612bbcbf0, 0xb3bd877865057f4e, 0x1f0e1fb5e5324a59, 0x5ff938a68e303681),
    (0x3ca62cae02b8353f, 0x2f853594f585dde6, 0x7a3479b8eb691aac, 0x7730c0c1d48c755d),
    (0x638d03a674c95f86, 0x6a2256110aef04b0, 0xf7ee3b022128d6a7, 0x50602b85d3b05b03),
    (0x1ad588bf35df72a0, 0x10daf1a37f3e0773, 0x7409a43aac630334, 0xa1ca0912fc3b1287),
    (0x50ae8251ed73e3d5, 0x7173d7e581b41376, 0x5cdb7e6165b10051, 0x1ce96b3421a9d69b),
    (0x679c9d17d7628ff6, 0x22ca1531e8033ce4, 0xa32cb4a3c1411953, 0xe0ab2c3790c4ca2c),
    (0x05e9acc54a168517, 0xaf1bf7c63d4261c4, 0x264b5d83bdfdec43, 0xdcae168095d35d5a),
    (0x22bc1451e740dfa8, 0x9af510b36bbae9b2, 0xe03a293be6bdb7ca, 0x7bede8de2f555fad),
    (0x21ca6d9209cf0b99, 0xf4ddf42d07bda644, 0x2b4d010633a3864b, 0xd25dd22bfd8a006b),
    (0x4183c954b16fdd90, 0x5837f4c5e5c166c3, 0xacf966c44927cbe6, 0x905929c6456df9b4),
    (0x698851155732cf1e, 0x46ebf11023796cac, 0xf19b00234337e4a7, 0x321e979d9007677a),
    (0x15f77cc5272bbb0e, 0x59d2fa52dc34d4d1, 0x760cdfd0f6cb8eea, 0x3c50be043392f329),
    (0x0397b117f2eb0532, 0xa967aaa5dfe6a57c, 0x4bcb45a78625e356, 0x6bc9ae95577567cb),
    (0x5bf515f5453ee205, 0xa31238c6922ffae4, 0xa5aa5b7cbbdbe7ae, 0x12083bf41918cd89),
    (0x25a758025166b9c1, 0x92b376e98a6d4fe1, 0x417f664b065081ad, 0xc3cc2e97d8411292),
    (0x148ccfe1283ba839, 0xb9173101f67f4cbd, 0x36d4626451b347af, 0x9c86d4e6cc3bcee3),
    (0x71221e262e4ecf50, 0x5e08c0d3905f9fc1, 0x5fbbdbcf68a55c5b, 0x5f8efcf4fb7617cc),
    (0x6a0bec77618297a0, 0x461005da30566eff, 0xe4bba7ee3da4505c, 0xaaac8301c7f144a8),
    (0x0760fa3169f10c43, 0xdb4fe8a24968110b, 0x1b88385d59bfeaf8, 0xbe74e8d8d667d9bc),
    (0x369a004f6c278eff, 0x9ba0f92fb1425fef, 0x9ba02b864eb88711, 0xee96c0b94e5f34ff),
    (0x65961383757fe9e0, 0x75b61481c03d8d6c, 0xc4cfa9c8ab5d53e2, 0x6c889cab0f03fb32),
    (0x356066724467cd12, 0x30e2127d41afde11, 0x807bb953b9daa294, 0xe816f5bd6d8b6116),
    (0x14559e9c24f86263, 0x54e0926ed70911d7, 0xf38592c72dbdd9dd, 0xad27019a1a87b509),
    (0x02bd7719305f33a6, 0x31dc36b561ee5bcf, 0xb57b4ec9aaae0afe, 0x66d62adba300362d),
    (0x41a32329c93a0bc8, 0xf873f599746d0160, 0xba05f2fdffdb40b0, 0x535488d65f7563ad),
    (0x1fd829411e0bd524, 0xceb54d36e7fcbde2, 0x9ef3cb8e80540508, 0x17a3faeaaaaddaba),
    (0x544533cb132a9b76, 0xc26b4d724fd40196, 0x7b5bfdad8cfbf9bc, 0x37f9e788017aa079),
    (0x52651ab099cebc7e, 0xad7ec3bab4764684, 0xc319c40a9d8113ec, 0x60774c85f320185e),
    (0x57cc0b1cab3bc971, 0x366acdc66824be60, 0x9f433c0a74e09934, 0xa77c7fe1de97420b),
    (0x23a588c84777b11e, 0xeecbe3de3f88534b, 0x0474e02330f00d71, 0x797e82c0a8cad042),
    (0x23159cb4e32cc725, 0x4cae33c5fb3a37a9, 0x2f7a9922884aea88, 0x3ce4ef878dbfeaac),
    (0x162248ffa6736fc7, 0xf2258659b051a76f, 0x3340c6c31dfbb228, 0x8ef6ced2c80bd473),
    (0x64f07795046be437, 0x23dfa2d178428a14, 0xe58bab1615210b35, 0x7041230056c7ab25),
    (0x0a0c00e0d7c8c252, 0xd381bb20308816d1, 0x88e0bd724b5e7b0a, 0x302d138ce7c56398),
    (0x151c7685dc992db7, 0xf67b1a1cb43aca23, 0x2de463cdc08cedb2, 0x60f37505ab90eeee),
    (0x701db236dff055cd, 0xf76a754f8ba8dc7e, 0x03c649b3f09dbe0d, 0x7d2b9092549bcdd9),
    (0x506c97c325c8d106, 0xec4676ead5043769, 0xe352367175ceaca1, 0xd193db916a1bea30),
    (0x4f77907283a34c29, 0x8315de8e78c6e907, 0xbb21f5f00fbb5de4, 0x35caea25a20c54bc),
    (0x58a70515a2ce342c, 0x8aa86adc3550da51, 0xa31e1cf0867ef628, 0xd8576d30e552350f),
    (0x66af7ea1623e8738, 0x6e8150f8cdaf63bc, 0x9ec1d09f3000b67d, 0xad7d267314119dfe),
    (0x522839ca3e270ffd, 0x967ccb70435801bd, 0xb9bf7b17f98093e9, 0x5392fdb2e7c7b16e),
    (0x72eb8c1ae0db2baf, 0xba3d190aed2894cd, 0x3c30339888ac5c07, 0xd702d3823a42a8ac),
    (0x34f06e910af0ddc5, 0x029a8f9b69af3283, 0x35343f658a466491, 0x4e392cd52d419ec4),
    (0x302973d511ea8a2f, 0x05a997274fabe02b, 0x12aaa8980f20f793, 0xf0b2b3c4a65307c4),
    (0x14ffa6e6f2793bf3, 0x699a3b61f3c98559, 0xcd91e7044d833dd3, 0x28baf23852822e68),
    (0x2ab6505076a05a52, 0x11f9323111c72679, 0x911fff9c24206faa, 0x709143558e72e368),
    (0x60fdba6e33a430f2, 0xc6c6ce473ef12371, 0xc7a6e40d62691a20, 0x0067d266eb11e616),
    (0x511c37e3a67ee918, 0xbe8ec6070d1193bb, 0xd1025a6ef9dd119f, 0xf9299bf6896892d7),
    (0x180d9e044cef9258, 0xe9bbbbf9a4986345, 0x4d2f8a67debf7111, 0xc60e05955109dd72),
    (0x1c5ea53cefba9174, 0xcdfb06b069128e9b, 0xa9ace1a11e036523, 0xaba8cc417298a32c),
    (0x21f74faf360c7744, 0xcf14bb7d5bfc4afa, 0xbf68bd5bf30b1313, 0xc37f95bce3fe7d6a),
    (0x04c354ba220cfce5, 0x62035caf6ed964cc, 0xae85e75d2d265f15, 0xea8385bbe32e75f1),
    (0x40516d19051b3aa3, 0xfa38426118491e94, 0x00bca9bdb937443d, 0xe578bb3f628d1377),
    (0x5d025f23c2eae101, 0x61d16446edeb63b5, 0x6a4bb5d206d806d8, 0xac49c11dd22bcd7c),
    (0x4f919885e51123c1, 0x40abd2208b11f79d, 0x3c9e508542c6cf28, 0xf7f747de2ab98023),
    (0x5f751de4ccf3e905, 0x2ce67cf1f2a6b964, 0x3a0edb9398a73b58, 0x8d285210356c7e1f),
    (0x313f173aa35210fd, 0x39df00a2bf16f7d8, 0xac1dde8924f32f84, 0xb698fba11014e15b),
    (0x58790abe8779b795, 0x72eac38f1d2f8d4d, 0xd2c233a803db18b1, 0x47625d4b08e35b23),
    (0x1f0dc510eb8d33b0, 0x79b0ee893e134d29, 0x12cd69da2fbd5006, 0xce5ff84158b938b6),
    (0x141794d5306e4bae, 0x2032f3656a3059ed, 0xdcc786b8f4e39670, 0x51691d201c601061),
    (0x38b8e9f2ad5a5568, 0x6ce7e919ec3751ca, 0xd6576af7027e96ad, 0x7b5b05988d2b7e72),
    (0x54196e5d004316a6, 0x2f68a380404ee44a, 0x68f0e763a53cbcc0, 0x9448b992e7d3acb5),
    (0x6d64d84b4641d067, 0x48585fcfd363a8ad, 0xc2d0f1933a8d2aea, 0x695256eefb6d9fe7),
    (0x30d7220cfac6393f, 0xed175fd86d872442, 0x16ce758357b949e6, 0x08b76e0aa0828ac0),
    (0x3fcf3c4b4b5f76e4, 0x72debc1913413e0b, 0x711a1b7898b3b3a9, 0xfe3649b88b7c6e0f),
    (0x091a10100ba9c972, 0x89b156588776f0de, 0x8727ef776ff207bb, 0x1570e011d9fb1254),
    (0x5c3a7e409f24a795, 0xcbfdf32675a334e5, 0xe066ba6a7c693590, 0x7398756b3a3ee318),
    (0x42d50a49e2d58030, 0x803d600c0275a343, 0x29dd0c1cde5645b7, 0x5d5f58b5b83418e9),
    (0x16d3b7f5b32be210, 0x602e752b013c5e09, 0xcc53dd2a5384f91a, 0x4b3650978937c540),
    (0x0c98da39e4717f54, 0xee62558e0ca73206, 0x27cfa8b2c24c102d, 0x14b8bd62aaec82cc),
    (0x66e41947dae155e2, 0xdc648c58e12b734e, 0xbc4400419662bb2e, 0x247b58cd7c2036bb),
    (0x5aa3c041311b4288, 0xa273c6c6fa4b558d, 0x2d67e6b4c9f6f39e, 0xb8572276250a7488),
    (0x4f1f9bdd08d76209, 0xcfcd68d336f0b6e4, 0xa25c7f5ffae21ddd, 0x1691a56e3475210b),
    (0x3dc9fc7cb0ff34c7, 0x293efbd6e1b83f70, 0x4dd73603d065cb70, 0x57158d2905b90f8e),
    (0x0fd0206298151647, 0x2c84eba6ad7f88a7, 0x3a88236157aee02e, 0x697e1d1f05108d2d),
    (0x06e6533cc9973691, 0x01e22b7b170b57c5, 0x972005505ada68ca, 0xd0fce35ad7571dfd),
    (0x3e054292c2075078, 0x72ae23f4ba269171, 0x6a7fc3aad4e1a8dd, 0x5c52cc8eb9f138e9),
    (0x0caa663bb51b7c7a, 0x3e8aea6b9abf47e6, 0x70e8d5e8c66ed189, 0xe13f16411ab5a8d9),
    (0x01fad86af8c711c2, 0xb2cceadb17d0d8f3, 0xbdf47c730b656f79, 0x0a5eda7e4058592b),
    (0x1a7c49f0707bf2dd, 0xb89d78f6f881137f, 0x0ba2c2d03104eb00, 0x816ee1ed741c94f3),
    (0x2f891c3b6328b239, 0x2cbb6a15a9cadd13, 0x3fcd5b4b9df9c9fe, 0x54df77bfaa4fbb06),
    (0x55be51c1fa11b116, 0x827a18c3f05d2112, 0x449d31e011e4244c, 0xbbc3e74677a19e76),
    (0x15a66f80b0161416, 0x1c841eb1098cb3d4, 0xbe982024242a28a5, 0xb44f40664bd5ccb3),
    (0x0b5ed954cf8df5bf, 0xe49b9e7acfa2975f, 0x12f8f7934e6a30cf, 0xbaf71acce247495b),
    (0x12fccbed7b15cb9b, 0x8f40b5e30b5149a9, 0xc4ba587039f715ed, 0x6a802aba11f9debe),
    (0x427073425b481a01, 0xc3e2faf3de96298c, 0xf128bb1451c57f0c, 0x17553b3d8c6b3eac),
    (0x6bc60ad86266b0e2, 0xa55ef356b25aaf6e, 0xe9986484eb83a320, 0x71b12ee66d602660),
    (0x2012fa6a88dc5302, 0x2bf2f1f139ae370a, 0x43c70795fcbc6895, 0x1c550b2d149f3675),
    (0x103c2d9666b65980, 0xb9b290d0cc758d74, 0x516c7ffa2de30025, 0x27bf1702cdcc74cc),
    (0x387400a018b500c4, 0xa875206740af477d, 0xa2b3105164b6a883, 0x391fffc4bf49ddb9),
    (0x69025af1c02972ff, 0xe7f24b2b6b0a590d, 0xbcfe22ad498f4ec3, 0x6c21836184e5e901),
    (0x430616705e09b469, 0xeda1832f3452a3b6, 0xfe66fa02c7bd3252, 0x21890ae38578e52e),
    (0x6b73bf2e0f6d663a, 0xed9055f15dcf88a6, 0xbe6e47ad423d228f, 0x1ef277eb3613a5ea),
    (0x3e5a7b2ecd49abf8, 0xe0294816388af052, 0xf8eea67fce57d060, 0x557d388ce4263839),
    (0x5b37c21667ff9ea4, 0x14c1b708be769d6e, 0x9dde69525ec90fed, 0x984743033331b921),
    (0x2fa0d65a25fb4834, 0x6f92447bc0dff3ec, 0x251052e892bcfa78, 0xa246f4bc7db3375b),
    (0x2870d884abbd0247, 0xb959e6662b35e6b8, 0xdc5e3fe2a50867c0, 0xd30b8bb919dbd13e),
    (0x5c6bbe7e3cd5d025, 0x9e2e16c76b6be00c, 0xfa6150454968b46d, 0x334c00d7d563017f),
    (0x4ba0c3259cac95de, 0x2ed9b5955e5d67f3, 0xdf5f116718fb2722, 0x48a7779d1aba7df4),
    (0x6616dd408b8bfd11, 0x69c02914afc80e13, 0x147a8a5cd724ebef, 0x5cb528f09f0f2bae),
    (0x1f1ab6f41ad3e27a, 0x01ecb34074ebd2c4, 0xb3651f1fc269db2f, 0x53a7a0f6688204d1),
    (0x1d3bf6370db31f3a, 0x29d17904793ac1c9, 0x9ea1d75e203aedac, 0xc362b3bd4310d4d8),
    (0x6aff728ed49708a6, 0x5e096ad48aef3eed, 0x982861b1ddd10f36, 0xa97e6664a01eb509),
    (0x30b562fec25fd1f8, 0xf9d4d45eeea2c6c4, 0xaf6e2237aa6ce1e2, 0xd2d5aa9591d11429),
    (0x5867a732ea88a39f, 0xec7f2a04a845ea6c, 0x485c53d5a1e54524, 0x0b27126d3da22730),
    (0x53f29312735424d4, 0x384ecf27325cf919, 0x80dd1d17d328493f, 0x7d8afc070a44e439),
    (0x651ac18472733c11, 0x011dda5a2cef153f, 0xe4da04f078b0f613, 0x3adb020804e5decb),
    (0x72b287c3a53e9ab8, 0x8a1e179c8d4f3083, 0x8e2e49333f57a4fa, 0x57033c9bd71f3afd),
    (0x08090c7433cb740e, 0x13bbf4d40657ea94, 0x1a5cd5ae057c28e7, 0xdf9b2a4d0e9401a6),
    (0x14c5d3d9993fb428, 0xcba05f7f380d24e9, 0xcdc92ae64b8f3986, 0x32f8862bfb8774fb),
    (0x42dc8dd3c843eaa2, 0xc8f7b6ef87414aed, 0xad1e39902a31d9b2, 0x27e73863fcfb9200),
    (0x5a5b9772d8308e6a, 0x4f68004c396e5ab9, 0xa931954cab59cd9c, 0xff8aab1e9b1dca1b),
    (0x36df47d9e441e5a7, 0xc03f19944d08f9a5, 0x0431dbcc35b2532b, 0x3654def0433e3c63),
    (0x09254f436a6f7414, 0x9f15d93ae458eb84, 0x6f2e82a1c661f7f0, 0x5bebf01d4f8c9ab5),
    (0x336b3f348294bbcf, 0xf921cc6f3371cd84, 0xd4484c397be4498b, 0xc6f4fa4f6770f5ef),
    (0x0e1dc4fd3a300cff, 0xcace92fea292bcfa, 0xcc127ffdb20de408, 0xaca487466724e07f),
    (0x2286b47450bc3332, 0x34d3a80fb2c8caa0, 0xefc4d928c7e2c53b, 0x6b2ebf19e298c24b),
    (0x4dffef43f732acb6, 0xc842194cab2bbf65, 0xc90315bf3f7a0883, 0x7899be280cc444a9),
    (0x44bb3f9310a6ffeb, 0x295464b584087992, 0x3b892b172ef356b8, 0x015488023e8a639b),
    (0x668b75daa478d12e, 0xd3e4aa77955be1f0, 0x1d62283a989cd5f3, 0xe42e36293ea7dc9d),
    (0x40581e44d91afb76, 0x2e7f41de851f1d2d, 0x1d7cf63e37caf549, 0x8d62322fa49d2d94),
    (0x6d09a4ada205a2c6, 0x1476c8db58e02b8a, 0x6609c5ebeb907fa8, 0x436486c0fc9133ce),
    (0x6e7f19004bf61e86, 0xe7477e94b55447dc, 0x1131497ef8be2fe2, 0xc9bf6fff8e6811e0),
    (0x5bbb93b26f8f5689, 0xcf72c698f46f6582, 0xbbcbc906307c6f53, 0xe0289f275c0b8d4d),
    (0x46749d08c6f2940f, 0xd23e905bf64db5f1, 0x7acb1aa723031cd9, 0xfc5846c67c5f983c),
    (0x70dd133fda591dcc, 0x0db710642b546cfb, 0x3acd9c95a689d3ab, 0xd7714f134330a40e),
    (0x4ececfe1cc5337da, 0x12b3d20282348514, 0x444af31128a19ec7, 0x796c83af76a69ed5),
    (0x24c0fe3629bae079, 0x1197c54cc3cfb4ee, 0xb71c6d26334e656c, 0xbcff596ac304a355),
    (0x27357d73e05e8a81, 0x78654ff3e5983a68, 0x17d8c0d30ca16142, 0x4d126164106a404b),
    (0x5a908d6076a804d0, 0x4e832cbcdaab09db, 0x704ddf9d60f431e1, 0x1672d02502917d87),
    (0x664e23e1f4ad52b4, 0x11efb68cdd86a9c9, 0x0208a4779e0b2aa1, 0xca64596eba929733),
    (0x633be1f09ac17be9, 0xc4bb0de9bba7e5e4, 0xae0900b8526f9211, 0x60645a8343a69a6d),
    (0x0874f477a48bc250, 0xd27f1584db95615d, 0xaceb49ef4dee640d, 0x2dd3ab290d447405),
    (0x17c2371bbd5f0687, 0xda2614dd0df5deee, 0x4535c16ffabc71e1, 0x9404735e7b819270),
    (0x70586e46ed9c703c, 0xecadd2d96dc8a9e3, 0x6702a162867857d1, 0xef76235cf381dce2),
    (0x5b4c5b7c1aca63f5, 0x4de2a4c48ca9bcd3, 0x45e0f4f4e94e2f31, 0xb112f87e9e2086d9),
    (0x156a3111045d44e7, 0x843957604c75e558, 0x78a81c3e3f85e198, 0x50e0d0c7788e0fb8),
    (0x06838ae60de8de4e, 0x9043282c8345cc56, 0xd528f53494141c85, 0x9f00696d8ec799ad),
    (0x33bf2cf1f829b737, 0x8089d61a06747255, 0x4284e301d8607c2d, 0xcda30b0b26af969f),
    (0x53c36a276a560f81, 0x60ec5d6c73243db1, 0xe28181507ff8e35c, 0x11cba63229f00379),
    (0x0bda1762ee7ab8cc, 0x606c79d92ad9a890, 0x788d6163b469043b, 0x50c6a2592a3e811a),
    (0x4a8ca32cecde37c1, 0x8aedf30ac29df6e3, 0x959a381916f1e7f7, 0x435ebeb508650334),
    (0x73ab2fb2e9c6ae9f, 0xcad83de8c8cbbcb7, 0x1406605d7998683f, 0x0efe5af6c61e8305),
    (0x60ae56707636daa9, 0xc54ca3ff721d26a4, 0x1561dfb199b66311, 0xb65e436ec1f7284f),
    (0x218de4ae520ba3ff, 0xf29089cdda33ed2a, 0xf6d16fa7318c3486, 0xd87fefbb85f8b95a),
    (0x62bc3266adce3892, 0x59e434449cc3277c, 0xfce07f9026f3d126, 0xd4633f97a0488731),
    (0x53d8aeddd4dfcb03, 0x0ec3f4cb244cb117, 0xf8465ab0dc7a0b64, 0xe3d9abd0c4b0055a),
    (0x0c482029be059f80, 0x1a72d12b46d5054d, 0x7995be5d9cc8801b, 0xf5971ccb66d9f2f0),
    (0x13b56748b8b6d50e, 0xbaeff7f2575ab572, 0x8d79d0ddbb092e80, 0x6ba9769da3055a25),
    (0x19fd4571b0f5ce53, 0x5963c015ccf76854, 0x930ab9a6db770f06, 0xee0a62e6d3d1945a),
    (0x29685a9ae880d95e, 0x9fa37c046e3f978c, 0x22784b31a589d6a1, 0xad0d255d06a7b320),
    (0x290fd08e08a99741, 0x92d346b8091338f0, 0xac36a043d8595da3, 0xa485954cbb058c20),
    (0x5e05c18479e8726d, 0x023c5166548c3530, 0xdbc31dcca3b069f3, 0x8bc1af809b2509d6),
    (0x3b88923cdc88433d, 0xf549fd39967cf7e2, 0xa45e002a70f9c4be, 0x93c5b4e896c1ef8a),
    (0x55b972e8fb2143de, 0xadd44759ad0d48a6, 0x247a79de4578ab30, 0xa900e2a5ba24163c),
    (0x273fda6d7a31add3, 0x8db33f063d012e49, 0x53a618e0c1b8b131, 0x9ba666ac2b1178de),
    (0x0da11e6c6ad4f7d5, 0x898ef1f1701bb960, 0xe38e1005c430479f, 0x05ac518e40b4659e),
    (0x70e33d77750f2c3d, 0x6b57a99045d28c97, 0xae8f64e74cbe5352, 0x857017aa45d82f65),
    (0x08090241c14e90aa, 0xd646f936aa445c4a, 0x2038fc921343e8af, 0x816e371b33d492a6),
    (0x3ea3d4d6b0356cda, 0x6d02dac3af1524c4, 0x7fa01eb811c58328, 0xbcdf6cf15d60fa57),
    (0x42a752e094477afc, 0x14bf8648ff81890a, 0x6241b559f33a3786, 0x8e4556decf429958),
    (0x12ae229653876c53, 0xff8c8ccad3903ae0, 0x486ba9ffad583672, 0x4eb76bf6dba9802c),
    (0x55b506194810ba29, 0xeafafdde3be94369, 0x66f6dee99b402722, 0x1826e107daa71338),
    (0x223fbbc613408dd5, 0xa7312c3caa4b00b7, 0x7773f092b7809f47, 0x58b2677648edc878),
    (0x4291d246edcc0d07, 0xb53cd7354cd94141, 0x29057d6968e85584, 0x23efb09aaadd52ec),
    (0x51efed1ea5abdec0, 0x1a005d547525ff67, 0xb9333670cc6aa060, 0x936da50831ef22fc),
    (0x130bf43b8fdd4194, 0x25e2abb8010368ac, 0x00c5754121b813df, 0xb1191e535c255092),
    (0x499549ddfd7e97d5, 0xc800b4b290ba1869, 0x48e476da6ca241e1, 0xa127acdd354f91e0),
    (0x68ef535401661b51, 0x64ce0865739d5316, 0xb9095ecdf1ea320d, 0xe573832a5eca493f),
    (0x5c2105fbe0dd8545, 0x59ad59d2c72087ef, 0xdb38f2a426d426c2, 0x45cc5e9e64cef4d3),
    (0x38d3724c1b38a253, 0x7249c2f6730f26cb, 0xdcbfa9e07a491716, 0x343549b6bf694927),
    (0x0959334dc4cdab56, 0x1f41bcc001d1193a, 0x914f6cb710b31542, 0xa19537a037478cef),
    (0x069683a5bdd2b001, 0xd596f676f7a48cef, 0xec7519322f2c9f21, 0xd60fa8dea5479657),
    (0x632155eac6cc3e6a, 0x3c6586bc439aeea4, 0xb5d41a50c82b0015, 0x7a1d8bc9b6922a00),
    (0x3a98243c134dccf1, 0xc1593e35a84138af, 0x5b39f20ecae97020, 0x4c087bf640ff85fc),
    (0x541c286d378d24d2, 0x045f460bca8ee2df, 0x7e10860974ca2ac3, 0x98759ad8ce9ad817),
    (0x16cbf1a07e37c326, 0x1f8fdfa07f688f6e, 0xb389504a76787a2a, 0xec012f06e56019c3),
    (0x1d2814d7bea53242, 0x0e6d5a056b5418f8, 0x408b552f1fd10fc3, 0x53bc2dfdb725cb87),
    (0x71acd41266f51037, 0xdd312e991ab86865, 0x2c4e8dc6ca20727f, 0x6d3a836ca8c0c018),
    (0x6910d934bba9f49d, 0xcb61f5f552e11269, 0x089e1096d1a65d0d, 0xd155263352176a0b),
    (0x6255942dc315ffd7, 0x22b89f42f4f0b05e, 0xe1d2f294a2d7f07e, 0x074bcec0d477acae),
    (0x60de38a658c1499b, 0xdaaf07a11aaae775, 0x28de97f397047c3a, 0xdb90afdc4fed3503),
    (0x6e70cba8c5715d4d, 0x7f49acbdc4310428, 0x8dc8410645de7fbe, 0x9f03b27db3ed88d2),
    (0x5cc810ad23afdfb3, 0x9fa48c069b384be4, 0x8835f2ecf8b79b14, 0x96659193e10e31ad),
    (0x2c4341436a9567f7, 0x1388a9afc450af1d, 0x2668839cd86ddb98, 0x4f7523b8ef441219),
    (0x1c8c94864558cfb9, 0x864f38d6d33b195b, 0x0b885f3b82f90984, 0x4d065a95af91821e),
    (0x350d5bfcd1a05f23, 0x7963a0c6f9388a36, 0x2f91942f37b0f27f, 0x943de4f364f0a210),
    (0x1d7ece4833c89b1e, 0xc1bfafd34b121049, 0xaf3c4d654671408f, 0x6f57c97208537bb2),
    (0x11dfe1427f61b874, 0xf8e7246cfcf95d90, 0xffeb5853bf5c637a, 0x2311a3a59e48d858),
    (0x70712c7b9dff42a9, 0xe13de873e3215ebc, 0xcf9cb8c8fa6c595b, 0xc3575fa5fa6469d6),
    (0x7121ef9e68a17497, 0xc3b2f21aa7ac713b, 0x68c6a4e7c79a80ef, 0xc7a03e118f4f5114),
    (0x40a22428f4cd076a, 0x0af19445d5f297fc, 0x99a1766f349bf8b1, 0x6cd895718e86d268),
    (0x0c7389be7dfcfe6f, 0x3911e9d4132ec51f, 0xf3540902241e8bb4, 0x4d24ef0a431110d9),
    (0x5e5a97690b2165f1, 0xbe8a2be5dd52eb20, 0x00bf557826f4ae9c, 0x20e6bc80357dc276),
    (0x4f3795cb5f8a957a, 0xbaaa50c69df545e9, 0xd5217a8fab700893, 0x50b2470b1b71afa5),
    (0x69b439e84021f573, 0x57c780b414dfe8d6, 0x71eb949480876133, 0x242d50479408f5f3),
    (0x613e47bc2e748357, 0x5810b1b6227cfb6a, 0x8849735e7549b61b, 0x422bd5b39555c755),
    (0x1b849bede105e08f, 0x3ff505f69b70b2b6, 0x1b39d177c990d0c3, 0x01319f2ee18d6fc3),
    (0x26c5a46bd4f07698, 0xfed797fb44f24974, 0x2db47e29edb6289a, 0xbcf872e756fe9430),
    (0x49ab56da157b34a2, 0x313c5a1dc4eb9860, 0x6958804d0428c988, 0xe2107ba41ab6f423),
    (0x41e9f6ebf06c4450, 0xc89d76e47a359e53, 0x73d888d59f909f1a, 0xd4f491b02ed48480),
    (0x6ddb9086a7dfdd35, 0x07358cdc1a5aa819, 0x84331db919bebffb, 0xdfdb03472d3f5154),
];

} // verus!
