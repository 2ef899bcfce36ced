use amm_pool::error::AMMError;
use amm_pool::instruction::AMMInstruction;

fn le(v: u64) -> Vec<u8> {
    v.to_le_bytes().to_vec()
}

#[test]
fn unpack_init() {
    assert_eq!(AMMInstruction::unpack(&[0]), Ok(AMMInstruction::InitAMM {}));
}

#[test]
fn unpack_provide_liquidity() {
    let mut buf = vec![1u8];
    buf.extend(le(5));
    buf.extend(le(50));
    assert_eq!(
        AMMInstruction::unpack(&buf),
        Ok(AMMInstruction::ProvLiquidity { busd_amount: 5, bstock_amount: 50 })
    );
}

#[test]
fn unpack_claim_liquidity() {
    let mut buf = vec![2u8];
    buf.extend(le(7));
    assert_eq!(AMMInstruction::unpack(&buf), Ok(AMMInstruction::ClaimLiquidity { amount: 7 }));
}

#[test]
fn unpack_trade_busd() {
    let mut buf = vec![3u8];
    buf.extend(le(123456789012345));
    assert_eq!(
        AMMInstruction::unpack(&buf),
        Ok(AMMInstruction::TradeBUSD { amount: 123456789012345 })
    );
}

#[test]
fn unpack_trade_bstock() {
    let mut buf = vec![4u8];
    buf.extend(le(u64::MAX));
    assert_eq!(
        AMMInstruction::unpack(&buf),
        Ok(AMMInstruction::TradebStock { amount: u64::MAX })
    );
}

#[test]
fn unpack_close() {
    assert_eq!(AMMInstruction::unpack(&[5]), Ok(AMMInstruction::CloseAMM {}));
}

#[test]
fn unpack_empty_fails() {
    assert_eq!(AMMInstruction::unpack(&[]), Err(AMMError::InvalidInstruction));
}

#[test]
fn unpack_unknown_opcode_fails() {
    assert_eq!(AMMInstruction::unpack(&[6]), Err(AMMError::InvalidInstruction));
    assert_eq!(AMMInstruction::unpack(&[255, 1, 2, 3]), Err(AMMError::InvalidInstruction));
}

#[test]
fn unpack_truncated_argument_fails() {
    // One argument needs eight bytes after the opcode.
    assert_eq!(AMMInstruction::unpack(&[2, 1, 2, 3]), Err(AMMError::InvalidInstruction));
    assert_eq!(AMMInstruction::unpack(&[3]), Err(AMMError::InvalidInstruction));
    // ProvLiquidity needs sixteen.
    let mut buf = vec![1u8];
    buf.extend(le(5));
    assert_eq!(AMMInstruction::unpack(&buf), Err(AMMError::InvalidInstruction));
}

#[test]
fn unpack_ignores_trailing_bytes() {
    let mut buf = vec![2u8];
    buf.extend(le(9));
    buf.push(77);
    assert_eq!(AMMInstruction::unpack(&buf), Ok(AMMInstruction::ClaimLiquidity { amount: 9 }));
}

#[test]
fn pack_then_unpack_every_opcode() {
    let ops = [
        AMMInstruction::InitAMM {},
        AMMInstruction::ProvLiquidity { busd_amount: 5, bstock_amount: 50 },
        AMMInstruction::ClaimLiquidity { amount: 3 },
        AMMInstruction::TradeBUSD { amount: 0 },
        AMMInstruction::TradebStock { amount: u64::MAX },
        AMMInstruction::CloseAMM {},
    ];
    for op in ops {
        let encoded = op.pack();
        assert_eq!(AMMInstruction::unpack(&encoded), Ok(op));
    }
}

#[test]
fn pack_layout_is_little_endian() {
    let encoded = AMMInstruction::ProvLiquidity { busd_amount: 5, bstock_amount: 50 }.pack();
    let mut expected = vec![1u8];
    expected.extend(le(5));
    expected.extend(le(50));
    assert_eq!(encoded, expected);
}
