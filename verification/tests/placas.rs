use cruzamento::transito::placas::{texto_da_placa, valida_placa, ErroPlaca};

#[test]
fn placa_valida() {
    assert_eq!(valida_placa("CCC0001"), Ok(()));
    assert_eq!(valida_placa("abc9876"), Ok(()));
    assert_eq!(valida_placa("AzB0000"), Ok(()));
}

#[test]
fn placa_com_caractere_fora_do_ascii() {
    assert_eq!(valida_placa("ÇCC0001"), Err(ErroPlaca::NaoAscii));
    assert_eq!(valida_placa("CCC000１"), Err(ErroPlaca::NaoAscii));
    assert_eq!(valida_placa("é"), Err(ErroPlaca::NaoAscii));
}

#[test]
fn placa_de_tamanho_errado() {
    assert_eq!(valida_placa(""), Err(ErroPlaca::TamanhoErrado));
    assert_eq!(valida_placa("CCC001"), Err(ErroPlaca::TamanhoErrado));
    assert_eq!(valida_placa("CCC00010"), Err(ErroPlaca::TamanhoErrado));
    assert_eq!(valida_placa("1234567890"), Err(ErroPlaca::TamanhoErrado));
}

#[test]
fn placa_sem_letras_no_inicio() {
    assert_eq!(valida_placa("1CC0001"), Err(ErroPlaca::SemLetras));
    assert_eq!(valida_placa("C1C0001"), Err(ErroPlaca::SemLetras));
    assert_eq!(valida_placa("CC 0001"), Err(ErroPlaca::SemLetras));
    assert_eq!(valida_placa("C@Cabcd"), Err(ErroPlaca::SemLetras));
    assert_eq!(valida_placa("[CC0001"), Err(ErroPlaca::SemLetras));
    assert_eq!(valida_placa("{CC0001"), Err(ErroPlaca::SemLetras));
}

#[test]
fn placa_sem_digitos_no_final() {
    assert_eq!(valida_placa("CCC00A1"), Err(ErroPlaca::SemDigitos));
    assert_eq!(valida_placa("CCCC001"), Err(ErroPlaca::SemDigitos));
    assert_eq!(valida_placa("CCC000/"), Err(ErroPlaca::SemDigitos));
    assert_eq!(valida_placa("CCC000:"), Err(ErroPlaca::SemDigitos));
    assert_eq!(valida_placa("CCC-001"), Err(ErroPlaca::SemDigitos));
}

#[test]
fn texto_da_placa_tem_tres_letras_e_quatro_digitos() {
    assert_eq!(texto_da_placa(0), "CCC0000");
    assert_eq!(texto_da_placa(7), "CCC0007");
    assert_eq!(texto_da_placa(42), "CCC0042");
    assert_eq!(texto_da_placa(305), "CCC0305");
    assert_eq!(texto_da_placa(1_000), "CCC1000");
    assert_eq!(texto_da_placa(9_999), "CCC9999");
}

#[test]
fn texto_da_placa_cresce_com_numeros_grandes() {
    assert_eq!(texto_da_placa(10_000), "CCC10000");
    assert_eq!(texto_da_placa(1_234_567_890), "CCC1234567890");
    assert_eq!(texto_da_placa(u64::MAX), "CCC18446744073709551615");
    assert_eq!(valida_placa(&texto_da_placa(10_000)), Err(ErroPlaca::TamanhoErrado));
}

#[test]
fn todo_texto_de_placa_ate_9999_e_valido() {
    let mut placa = 0;
    while placa <= 9_999 {
        let texto = texto_da_placa(placa);
        assert_eq!(valida_placa(&texto), Ok(()));
        assert_eq!(texto, format!("CCC{:04}", placa));
        placa += 1;
    }
}
