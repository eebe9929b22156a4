use vstd::prelude::*;
use vstd::string::StringSliceAdditionalSpecFns;

use crate::address::{
    base58_digit, base58_key, base58_value, big_endian, found_view, key_bytes_of, leading_zero_bytes,
    parse_key, program_address,
    try_find_program_address,
};
use crate::error::DegenErrorCode;
use crate::key::Pubkey;

verus! {

/// Seed of the account that holds the lamports staked on flips.
pub const SOL_VAULT: &'static str = "SOL_VAULT";

/// First seed of a flip's vault account.
pub const VAULT_PREFIX: &'static str = "DEGENDEVIL_VAULT_SEED_V1.0";

/// First seed of the house's bet account.
pub const ADMIN_BET_PREFIX: &'static str = "DEGENDEVIL_ADMIN_BET_V1.0";

/// Lamports that every flip pays the oracle on top of its share of the stake.
pub const ORACLE_FEE: u64 = 1000000;

/// The house's address, as base58 text.
pub const ADMIN_PUBKEY: &'static str = "7wqoNjMeCqg9ovoagZBsjcgkxKVLxQDXKADebEzviM5s";

/// The bytes of this program's address
/// (H2LCFgiKNFwdZyVQoJFhhhygvvuV8twbfzJ8nJpJHgG1).
pub open spec fn program_id_bytes() -> Seq<u8> {
    seq![
        238u8, 18, 70, 61, 176, 68, 45, 52, 113, 242, 102, 223, 89, 216, 71, 188,
        120, 170, 118, 245, 113, 126, 145, 113, 202, 128, 230, 15, 218, 72, 148, 146,
    ]
}

/// This program's address.
pub fn id() -> (key: Pubkey)
    ensures
        key@ == program_id_bytes(),
{
    let key = Pubkey {
        bytes: [
            238u8, 18, 70, 61, 176, 68, 45, 52, 113, 242, 102, 223, 89, 216, 71, 188,
            120, 170, 118, 245, 113, 126, 145, 113, 202, 128, 230, 15, 218, 72, 148, 146,
        ],
    };
    assert(key@ =~= program_id_bytes());
    key
}

/// The bytes of the house's address, as `ADMIN_PUBKEY` decodes.
pub open spec fn house_key_bytes() -> Seq<u8> {
    seq![
        103u8, 50, 169, 192, 69, 107, 216, 133, 97, 211, 126, 242, 132, 226, 94, 50,
        121, 112, 17, 127, 182, 147, 166, 128, 2, 23, 62, 116, 46, 40, 164, 130,
    ]
}

proof fn lemma_house_key_value()
    ensures
        ADMIN_PUBKEY@.len() == 44,
        ADMIN_PUBKEY@[0] != '1',
        forall|i: int| 0 <= i < ADMIN_PUBKEY@.len() ==> base58_digit(#[trigger] ADMIN_PUBKEY@[i]) >= 0,
        base58_value(ADMIN_PUBKEY@) == 46677737336068638225044039677553964219048451317265919045255775548704008217730int,
{
    reveal_strlit("7wqoNjMeCqg9ovoagZBsjcgkxKVLxQDXKADebEzviM5s");
    let text = ADMIN_PUBKEY@;
    assert(text.len() == 44);
    assert(base58_value(text.take(0)) == 0);
    assert(base58_digit(text[0]) == 6);
    assert(text.take(1).drop_last() =~= text.take(0));
    assert(text.take(1).last() == text[0]);
    assert(base58_value(text.take(1)) == 6int);
    assert(base58_digit(text[1]) == 54);
    assert(text.take(2).drop_last() =~= text.take(1));
    assert(text.take(2).last() == text[1]);
    assert(base58_value(text.take(2)) == 402int);
    assert(base58_digit(text[2]) == 48);
    assert(text.take(3).drop_last() =~= text.take(2));
    assert(text.take(3).last() == text[2]);
    assert(base58_value(text.take(3)) == 23364int);
    assert(base58_digit(text[3]) == 46);
    assert(text.take(4).drop_last() =~= text.take(3));
    assert(text.take(4).last() == text[3]);
    assert(base58_value(text.take(4)) == 1355158int);
    assert(base58_digit(text[4]) == 21);
    assert(text.take(5).drop_last() =~= text.take(4));
    assert(text.take(5).last() == text[4]);
    assert(base58_value(text.take(5)) == 78599185int);
    assert(base58_digit(text[5]) == 42);
    assert(text.take(6).drop_last() =~= text.take(5));
    assert(text.take(6).last() == text[5]);
    assert(base58_value(text.take(6)) == 4558752772int);
    assert(base58_digit(text[6]) == 20);
    assert(text.take(7).drop_last() =~= text.take(6));
    assert(text.take(7).last() == text[6]);
    assert(base58_value(text.take(7)) == 264407660796int);
    assert(base58_digit(text[7]) == 37);
    assert(text.take(8).drop_last() =~= text.take(7));
    assert(text.take(8).last() == text[7]);
    assert(base58_value(text.take(8)) == 15335644326205int);
    assert(base58_digit(text[8]) == 11);
    assert(text.take(9).drop_last() =~= text.take(8));
    assert(text.take(9).last() == text[8]);
    assert(base58_value(text.take(9)) == 889467370919901int);
    assert(base58_digit(text[9]) == 48);
    assert(text.take(10).drop_last() =~= text.take(9));
    assert(text.take(10).last() == text[9]);
    assert(base58_value(text.take(10)) == 51589107513354306int);
    assert(base58_digit(text[10]) == 39);
    assert(text.take(11).drop_last() =~= text.take(10));
    assert(text.take(11).last() == text[10]);
    assert(base58_value(text.take(11)) == 2992168235774549787int);
    assert(base58_digit(text[11]) == 8);
    assert(text.take(12).drop_last() =~= text.take(11));
    assert(text.take(12).last() == text[11]);
    assert(base58_value(text.take(12)) == 173545757674923887654int);
    assert(base58_digit(text[12]) == 46);
    assert(text.take(13).drop_last() =~= text.take(12));
    assert(text.take(13).last() == text[12]);
    assert(base58_value(text.take(13)) == 10065653945145585483978int);
    assert(base58_digit(text[13]) == 53);
    assert(text.take(14).drop_last() =~= text.take(13));
    assert(text.take(14).last() == text[13]);
    assert(base58_value(text.take(14)) == 583807928818443958070777int);
    assert(base58_digit(text[14]) == 46);
    assert(text.take(15).drop_last() =~= text.take(14));
    assert(text.take(15).last() == text[14]);
    assert(base58_value(text.take(15)) == 33860859871469749568105112int);
    assert(base58_digit(text[15]) == 33);
    assert(text.take(16).drop_last() =~= text.take(15));
    assert(text.take(16).last() == text[15]);
    assert(base58_value(text.take(16)) == 1963929872545245474950096529int);
    assert(base58_digit(text[16]) == 39);
    assert(text.take(17).drop_last() =~= text.take(16));
    assert(text.take(17).last() == text[16]);
    assert(base58_value(text.take(17)) == 113907932607624237547105598721int);
    assert(base58_digit(text[17]) == 32);
    assert(text.take(18).drop_last() =~= text.take(17));
    assert(text.take(18).last() == text[17]);
    assert(base58_value(text.take(18)) == 6606660091242205777732124725850int);
    assert(base58_digit(text[18]) == 10);
    assert(text.take(19).drop_last() =~= text.take(18));
    assert(text.take(19).last() == text[18]);
    assert(base58_value(text.take(19)) == 383186285292047935108463234099310int);
    assert(base58_digit(text[19]) == 50);
    assert(text.take(20).drop_last() =~= text.take(19));
    assert(text.take(20).last() == text[19]);
    assert(base58_value(text.take(20)) == 22224804546938780236290867577760030int);
    assert(base58_digit(text[20]) == 42);
    assert(text.take(21).drop_last() =~= text.take(20));
    assert(text.take(21).last() == text[20]);
    assert(base58_value(text.take(21)) == 1289038663722449253704870319510081782int);
    assert(base58_digit(text[21]) == 35);
    assert(text.take(22).drop_last() =~= text.take(21));
    assert(text.take(22).last() == text[21]);
    assert(base58_value(text.take(22)) == 74764242495902056714882478531584743391int);
    assert(base58_digit(text[22]) == 39);
    assert(text.take(23).drop_last() =~= text.take(22));
    assert(text.take(23).last() == text[22]);
    assert(base58_value(text.take(23)) == 4336326064762319289463183754831915116717int);
    assert(base58_digit(text[23]) == 43);
    assert(text.take(24).drop_last() =~= text.take(23));
    assert(text.take(24).last() == text[23]);
    assert(base58_value(text.take(24)) == 251506911756214518788864657780251076769629int);
    assert(base58_digit(text[24]) == 55);
    assert(text.take(25).drop_last() =~= text.take(24));
    assert(text.take(25).last() == text[24]);
    assert(base58_value(text.take(25)) == 14587400881860442089754150151254562452638537int);
    assert(base58_digit(text[25]) == 18);
    assert(text.take(26).drop_last() =~= text.take(25));
    assert(text.take(26).last() == text[25]);
    assert(base58_value(text.take(26)) == 846069251147905641205740708772764622253035164int);
    assert(base58_digit(text[26]) == 28);
    assert(text.take(27).drop_last() =~= text.take(26));
    assert(text.take(27).last() == text[26]);
    assert(base58_value(text.take(27)) == 49072016566578527189932961108820348090676039540int);
    assert(base58_digit(text[27]) == 19);
    assert(text.take(28).drop_last() =~= text.take(27));
    assert(text.take(28).last() == text[27]);
    assert(base58_value(text.take(28)) == 2846176960861554577016111744311580189259210293339int);
    assert(base58_digit(text[28]) == 55);
    assert(text.take(29).drop_last() =~= text.take(28));
    assert(text.take(29).last() == text[28]);
    assert(base58_value(text.take(29)) == 165078263729970165466934481170071650977034197013717int);
    assert(base58_digit(text[29]) == 23);
    assert(text.take(30).drop_last() =~= text.take(29));
    assert(text.take(30).last() == text[29]);
    assert(base58_value(text.take(30)) == 9574539296338269597082199907864155756667983426795609int);
    assert(base58_digit(text[30]) == 12);
    assert(text.take(31).drop_last() =~= text.take(30));
    assert(text.take(31).last() == text[30]);
    assert(base58_value(text.take(31)) == 555323279187619636630767594656121033886743038754145334int);
    assert(base58_digit(text[31]) == 30);
    assert(text.take(32).drop_last() =~= text.take(31));
    assert(text.take(32).last() == text[31]);
    assert(base58_value(text.take(32)) == 32208750192881938924584520490055019965431096247740429402int);
    assert(base58_digit(text[32]) == 18);
    assert(text.take(33).drop_last() =~= text.take(32));
    assert(text.take(33).last() == text[32]);
    assert(base58_value(text.take(33)) == 1868107511187152457625902188423191157995003582368944905334int);
    assert(base58_digit(text[33]) == 9);
    assert(text.take(34).drop_last() =~= text.take(33));
    assert(text.take(34).last() == text[33]);
    assert(base58_value(text.take(34)) == 108350235648854842542302326928545087163710207777398804509381int);
    assert(base58_digit(text[34]) == 12);
    assert(text.take(35).drop_last() =~= text.take(34));
    assert(text.take(35).last() == text[34]);
    assert(base58_value(text.take(35)) == 6284313667633580867453534961855615055495192051089130661544110int);
    assert(base58_digit(text[35]) == 37);
    assert(text.take(36).drop_last() =~= text.take(35));
    assert(text.take(36).last() == text[35]);
    assert(base58_value(text.take(36)) == 364490192722747690312305027787625673218721138963169578369558417int);
    assert(base58_digit(text[36]) == 34);
    assert(text.take(37).drop_last() =~= text.take(36));
    assert(text.take(37).last() == text[36]);
    assert(base58_value(text.take(37)) == 21140431177919366038113691611682289046685826059863835545434388220int);
    assert(base58_digit(text[37]) == 13);
    assert(text.take(38).drop_last() =~= text.take(37));
    assert(text.take(38).last() == text[37]);
    assert(base58_value(text.take(38)) == 1226145008319323230210594113477572764707777911472102461635194516773int);
    assert(base58_digit(text[38]) == 57);
    assert(text.take(39).drop_last() =~= text.take(38));
    assert(text.take(39).last() == text[38]);
    assert(base58_value(text.take(39)) == 71116410482520747352214458581699220353051118865381942774841281972891int);
    assert(base58_digit(text[39]) == 53);
    assert(text.take(40).drop_last() =~= text.take(39));
    assert(text.take(40).last() == text[39]);
    assert(base58_value(text.take(40)) == 4124751807986203346428438597738554780476964894192152680940794354427731int);
    assert(base58_digit(text[40]) == 41);
    assert(text.take(41).drop_last() =~= text.take(40));
    assert(text.take(41).last() == text[40]);
    assert(base58_value(text.take(41)) == 239235604863199794092849438668836177267663963863144855494566072556808439int);
    assert(base58_digit(text[41]) == 20);
    assert(text.take(42).drop_last() =~= text.take(41));
    assert(text.take(42).last() == text[41]);
    assert(base58_value(text.take(42)) == 13875665082065588057385267442792498281524509904062401618684832208294889482int);
    assert(base58_digit(text[42]) == 4);
    assert(text.take(43).drop_last() =~= text.take(42));
    assert(text.take(43).last() == text[42]);
    assert(base58_value(text.take(43)) == 804788574759804107328345511681964900328421574435619293883720268081103589960int);
    assert(base58_digit(text[43]) == 50);
    assert(text.take(44).drop_last() =~= text.take(43));
    assert(text.take(44).last() == text[43]);
    assert(base58_value(text.take(44)) == 46677737336068638225044039677553964219048451317265919045255775548704008217730int);
    assert(text.take(44) =~= text);
}

proof fn lemma_house_key_bytes()
    ensures
        big_endian(46677737336068638225044039677553964219048451317265919045255775548704008217730int, 32) == house_key_bytes(),
{
    assert(big_endian(103int, 1) == big_endian(0int, 0).push(103u8));
    assert(big_endian(26418int, 2) == big_endian(103int, 1).push(50u8));
    assert(big_endian(6763177int, 3) == big_endian(26418int, 2).push(169u8));
    assert(big_endian(1731373504int, 4) == big_endian(6763177int, 3).push(192u8));
    assert(big_endian(443231617093int, 5) == big_endian(1731373504int, 4).push(69u8));
    assert(big_endian(113467293975915int, 6) == big_endian(443231617093int, 5).push(107u8));
    assert(big_endian(29047627257834456int, 7) == big_endian(113467293975915int, 6).push(216u8));
    assert(big_endian(7436192578005620869int, 8) == big_endian(29047627257834456int, 7).push(133u8));
    assert(big_endian(1903665299969438942561int, 9) == big_endian(7436192578005620869int, 8).push(97u8));
    assert(big_endian(487338316792176369295827int, 10) == big_endian(1903665299969438942561int, 9).push(211u8));
    assert(big_endian(124758609098797150539731838int, 11) == big_endian(487338316792176369295827int, 10).push(126u8));
    assert(big_endian(31938203929292070538171350770int, 12) == big_endian(124758609098797150539731838int, 11).push(242u8));
    assert(big_endian(8176180205898770057771865797252int, 13) == big_endian(31938203929292070538171350770int, 12).push(132u8));
    assert(big_endian(2093102132710085134789597644096738int, 14) == big_endian(8176180205898770057771865797252int, 13).push(226u8));
    assert(big_endian(535834145973781794506136996888765022int, 15) == big_endian(2093102132710085134789597644096738int, 14).push(94u8));
    assert(big_endian(137173541369288139393571071203523845682int, 16) == big_endian(535834145973781794506136996888765022int, 15).push(50u8));
    assert(big_endian(35116426590537763684754194228102104494713int, 17) == big_endian(137173541369288139393571071203523845682int, 16).push(121u8));
    assert(big_endian(8989805207177667503297073722394138750646640int, 18) == big_endian(35116426590537763684754194228102104494713int, 17).push(112u8));
    assert(big_endian(2301390133037482880844050872932899520165539857int, 19) == big_endian(8989805207177667503297073722394138750646640int, 18).push(17u8));
    assert(big_endian(589155874057595617496077023470822277162378203519int, 20) == big_endian(2301390133037482880844050872932899520165539857int, 19).push(127u8));
    assert(big_endian(150823903758744478078995718008530502953568820101046int, 21) == big_endian(589155874057595617496077023470822277162378203519int, 20).push(182u8));
    assert(big_endian(38610919362238586388222903810183808756113617945867923int, 22) == big_endian(150823903758744478078995718008530502953568820101046int, 21).push(147u8));
    assert(big_endian(9884395356733078115385063375407055041565086194142188454int, 23) == big_endian(38610919362238586388222903810183808756113617945867923int, 22).push(166u8));
    assert(big_endian(2530405211323667997538576224104206090640662065700400244352int, 24) == big_endian(9884395356733078115385063375407055041565086194142188454int, 23).push(128u8));
    assert(big_endian(647783734098859007369875513370676759204009488819302462554114int, 25) == big_endian(2530405211323667997538576224104206090640662065700400244352int, 24).push(2u8));
    assert(big_endian(165832635929307905886688131422893250356226429137741430413853207int, 26) == big_endian(647783734098859007369875513370676759204009488819302462554114int, 25).push(23u8));
    assert(big_endian(42453154797902823906992161644260672091193965859261806185946421054int, 27) == big_endian(165832635929307905886688131422893250356226429137741430413853207int, 26).push(62u8));
    assert(big_endian(10868007628263122920189993380930732055345655259971022383602283789940int, 28) == big_endian(42453154797902823906992161644260672091193965859261806185946421054int, 27).push(116u8));
    assert(big_endian(2782209952835359467568638305518267406168487746552581730202184650224686int, 29) == big_endian(10868007628263122920189993380930732055345655259971022383602283789940int, 28).push(46u8));
    assert(big_endian(712245747925852023697571406212676455979132863117460922931759270457519656int, 30) == big_endian(2782209952835359467568638305518267406168487746552581730202184650224686int, 29).push(40u8));
    assert(big_endian(182334911469018118066578279990445172730658012958069996270530373237125032100int, 31) == big_endian(712245747925852023697571406212676455979132863117460922931759270457519656int, 30).push(164u8));
    assert(big_endian(46677737336068638225044039677553964219048451317265919045255775548704008217730int, 32) == big_endian(182334911469018118066578279990445172730658012958069996270530373237125032100int, 31).push(130u8));
    assert(big_endian(46677737336068638225044039677553964219048451317265919045255775548704008217730int, 32) =~= house_key_bytes());
}

proof fn lemma_house_key_text()
    ensures
        base58_key(ADMIN_PUBKEY@) == Some(house_key_bytes()),
{
    lemma_house_key_value();
    lemma_house_key_bytes();
    assert(key_bytes_of(ADMIN_PUBKEY@) == house_key_bytes());
    assert(leading_zero_bytes(house_key_bytes()) == 0);
}

/// The house's address, decoded from `ADMIN_PUBKEY`. The text decodes, so
/// the result is always `Ok`; `InvalidAdminPubkey` stands for a text that
/// would not.
pub fn admin_account_pubkey() -> (admin: Result<Pubkey, DegenErrorCode>)
    ensures
        admin matches Ok(key) && key@ == house_key_bytes(),
{
    proof {
        lemma_house_key_text();
    }
    match parse_key(ADMIN_PUBKEY) {
        Ok(key) => Ok(key),
        Err(_) => Err(DegenErrorCode::InvalidAdminPubkey),
    }
}

/// `Ok` exactly when the two addresses are the same; `AccountMismatch`
/// otherwise.
pub fn check_account_equals(key: &Pubkey, expected_key: &Pubkey) -> (checked: Result<
    (),
    DegenErrorCode,
>)
    ensures
        checked == (if key@ == expected_key@ {
            Ok(())
        } else {
            Err(DegenErrorCode::AccountMismatch)
        }),
{
    if !expected_key.key_eq(key) {
        return Err(DegenErrorCode::AccountMismatch);
    }
    Ok(())
}

/// The seeds of the vault that holds the flip of `initiator` on `mint`.
pub open spec fn vault_seeds(mint: Seq<u8>, initiator: Seq<u8>) -> Seq<Seq<u8>> {
    seq![VAULT_PREFIX.spec_bytes(), mint, initiator, program_id_bytes()]
}

/// The seeds of the house's bet account, given the house's address.
pub open spec fn admin_bet_seeds(admin: Seq<u8>) -> Seq<Seq<u8>> {
    seq![ADMIN_BET_PREFIX.spec_bytes(), admin]
}

/// The address and bump of the vault that holds the flip of `initiator` on
/// `mint`, owned by this program; `None` where no bump gives an address off
/// the curve.
pub fn vault_pda(mint: &Pubkey, initiator: &Pubkey) -> (pda: Option<(Pubkey, u8)>)
    ensures
        found_view(pda) == program_address(vault_seeds(mint@, initiator@), program_id_bytes()),
{
    let program = id();
    let mut seeds: Vec<Vec<u8>> = Vec::new();
    seeds.push(vstd::slice::slice_to_vec(VAULT_PREFIX.as_bytes()));
    seeds.push(vstd::slice::slice_to_vec(mint.bytes.as_slice()));
    seeds.push(vstd::slice::slice_to_vec(initiator.bytes.as_slice()));
    seeds.push(vstd::slice::slice_to_vec(program.bytes.as_slice()));
    assert(seeds@.map_values(|s: Vec<u8>| s@) =~= vault_seeds(mint@, initiator@));
    try_find_program_address(&seeds, &program)
}

/// The address and bump of the house's bet account, derived from the house's
/// address and owned by this program: `Ok(None)` where no bump gives an
/// address off the curve. The house's address decodes, so the result is
/// never `Err`.
pub fn admin_bet_pda() -> (pda: Result<Option<(Pubkey, u8)>, DegenErrorCode>)
    ensures
        pda matches Ok(found) && found_view(found) == program_address(
            admin_bet_seeds(house_key_bytes()),
            program_id_bytes(),
        ),
{
    let admin = match admin_account_pubkey() {
        Ok(admin) => admin,
        Err(e) => return Err(e),
    };
    let program = id();
    let mut seeds: Vec<Vec<u8>> = Vec::new();
    seeds.push(vstd::slice::slice_to_vec(ADMIN_BET_PREFIX.as_bytes()));
    seeds.push(vstd::slice::slice_to_vec(admin.bytes.as_slice()));
    assert(seeds@.map_values(|s: Vec<u8>| s@) =~= admin_bet_seeds(admin@));
    Ok(try_find_program_address(&seeds, &program))
}

/// A flip's vault is derived from four seeds in this order: the vault
/// prefix, the mint, the flipper, and this program's address; the house's
/// bet account from the bet prefix and the house's address.
pub proof fn law_seed_order(mint: Seq<u8>, initiator: Seq<u8>, admin: Seq<u8>)
    ensures
        vault_seeds(mint, initiator).len() == 4,
        vault_seeds(mint, initiator)[0] == VAULT_PREFIX.spec_bytes(),
        vault_seeds(mint, initiator)[1] == mint,
        vault_seeds(mint, initiator)[2] == initiator,
        vault_seeds(mint, initiator)[3] == program_id_bytes(),
        admin_bet_seeds(admin).len() == 2,
        admin_bet_seeds(admin)[0] == ADMIN_BET_PREFIX.spec_bytes(),
        admin_bet_seeds(admin)[1] == admin,
{
}

} // verus!
