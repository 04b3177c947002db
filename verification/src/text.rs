//! Números escritos em decimal e o formato `m:ss.mmm` dos cronômetros.

use vstd::prelude::*;

verus! {

/// O algarismo decimal `d` (0 a 9) como caractere.
pub open spec fn digit_char(d: nat) -> char {
    (48 + d) as char
}

/// A escrita decimal de `n`, sem zeros à esquerda.
pub open spec fn decimal(n: nat) -> Seq<char>
    decreases n,
{
    if n < 10 {
        seq![digit_char(n)]
    } else {
        decimal(n / 10) + seq![digit_char(n % 10)]
    }
}

/// A escrita decimal de `n` completada com zeros à esquerda até `width`.
pub open spec fn zero_padded(n: nat, width: nat) -> Seq<char> {
    let digits = decimal(n);
    if digits.len() >= width {
        digits
    } else {
        Seq::new((width - digits.len()) as nat, |i: int| '0') + digits
    }
}

/// Quantidade de algarismos de `n`.
pub proof fn lemma_decimal_len(n: nat)
    ensures
        decimal(n).len() >= 1,
        n < 10 ==> decimal(n).len() == 1,
        10 <= n < 100 ==> decimal(n).len() == 2,
        100 <= n < 1000 ==> decimal(n).len() == 3,
    decreases n,
{
    if n >= 10 {
        lemma_decimal_len(n / 10);
    }
}

/// O texto de um único algarismo.
pub fn digit_str(d: u64) -> (s: &'static str)
    requires
        d < 10,
    ensures
        s@ == seq![digit_char(d as nat)],
{
    match d {
        0 => {
            proof { reveal_strlit("0"); }
            "0"
        },
        1 => {
            proof { reveal_strlit("1"); }
            "1"
        },
        2 => {
            proof { reveal_strlit("2"); }
            "2"
        },
        3 => {
            proof { reveal_strlit("3"); }
            "3"
        },
        4 => {
            proof { reveal_strlit("4"); }
            "4"
        },
        5 => {
            proof { reveal_strlit("5"); }
            "5"
        },
        6 => {
            proof { reveal_strlit("6"); }
            "6"
        },
        7 => {
            proof { reveal_strlit("7"); }
            "7"
        },
        8 => {
            proof { reveal_strlit("8"); }
            "8"
        },
        _ => {
            proof { reveal_strlit("9"); }
            "9"
        },
    }
}

/// Acrescenta a escrita decimal de `n` ao fim de `s`.
pub fn push_decimal(s: &mut String, n: u64)
    ensures
        final(s)@ == old(s)@ + decimal(n as nat),
    decreases n,
{
    if n >= 10 {
        push_decimal(s, n / 10);
    }
    s.append(digit_str(n % 10));
}

/// Quantidade de algarismos da escrita decimal de `n`.
pub fn decimal_len(n: u64) -> (len: u64)
    ensures
        len == decimal(n as nat).len(),
        1 <= len <= 20,
    decreases n,
{
    proof { lemma_decimal_len_bound(n as nat); }
    if n < 10 {
        1
    } else {
        decimal_len(n / 10) + 1
    }
}

/// Uma escrita decimal de um `u64` nunca passa de vinte algarismos.
proof fn lemma_decimal_len_bound(n: nat)
    ensures
        decimal(n).len() >= 1,
        n < 0x1_0000_0000_0000_0000 ==> decimal(n).len() <= 20,
{
    lemma_decimal_len(n);
    if n < 0x1_0000_0000_0000_0000 {
        reveal_with_fuel(pow10, 21);
        lemma_len_under(n, 20);
    }
}

/// `decimal(n)` tem no máximo `k` algarismos quando `n < 10^k`.
proof fn lemma_len_under(n: nat, k: nat)
    requires
        n < pow10(k),
        k >= 1,
    ensures
        decimal(n).len() <= k,
    decreases k,
{
    if n >= 10 {
        assert(k >= 2) by {
            if k == 1 {
                assert(pow10(1) == 10 * pow10(0));
            }
        }
        assert(n / 10 < pow10((k - 1) as nat)) by (nonlinear_arith)
            requires
                n < pow10(k),
                pow10(k) == 10 * pow10((k - 1) as nat),
        ;
        lemma_len_under(n / 10, (k - 1) as nat);
    }
}

/// Potência de dez.
pub open spec fn pow10(k: nat) -> nat
    decreases k,
{
    if k == 0 {
        1
    } else {
        10 * pow10((k - 1) as nat)
    }
}

/// Acrescenta `n` em decimal, completado com zeros à esquerda até `width`.
pub fn push_zero_padded(s: &mut String, n: u64, width: u64)
    ensures
        final(s)@ == old(s)@ + zero_padded(n as nat, width as nat),
{
    let len = decimal_len(n);
    let ghost start = s@;
    if len < width {
        let mut i: u64 = 0;
        while i < width - len
            invariant
                len < width,
                i <= width - len,
                s@ == start + Seq::new(i as nat, |j: int| '0'),
            decreases width - len - i,
        {
            proof { reveal_strlit("0"); }
            s.append("0");
            i = i + 1;
            assert(s@ =~= start + Seq::new(i as nat, |j: int| '0'));
        }
    }
    push_decimal(s, n);
    assert(s@ =~= start + zero_padded(n as nat, width as nat));
}

/// Arredonda um tempo em microssegundos para o milissegundo mais próximo.
pub open spec fn rounded_millis(us: nat) -> nat {
    us / 1000 + if us % 1000 >= 500 {
        1nat
    } else {
        0nat
    }
}

/// Um tempo no formato `m:ss.mmm`, o padrão de painéis de corrida.
pub open spec fn lap_time_text(us: nat) -> Seq<char> {
    let ms = rounded_millis(us);
    decimal(ms / 60_000) + seq![':'] + zero_padded((ms % 60_000) / 1000, 2) + seq!['.']
        + zero_padded(ms % 1000, 3)
}

/// Formata um tempo (em microssegundos) como `m:ss.mmm`.
pub fn format_lap_time(us: u64) -> (text: String)
    ensures
        text@ == lap_time_text(us as nat),
{
    let ms = us / 1000 + if us % 1000 >= 500 {
        1
    } else {
        0
    };
    let mut text = String::new();
    push_decimal(&mut text, ms / 60_000);
    proof { reveal_strlit(":"); }
    text.append(":");
    push_zero_padded(&mut text, (ms % 60_000) / 1000, 2);
    proof { reveal_strlit("."); }
    text.append(".");
    push_zero_padded(&mut text, ms % 1000, 3);
    text
}

/// O valor de um caractere que é um algarismo.
pub open spec fn digit_value(c: char) -> int {
    c as int - 48
}

/// `c` é um dos algarismos de 0 a 9.
pub open spec fn is_digit(c: char) -> bool {
    48 <= c as int <= 57
}

proof fn lemma_digit_char(d: nat)
    requires
        d < 10,
    ensures
        is_digit(digit_char(d)),
        digit_value(digit_char(d)) == d,
{
}

/// Com três casas, um número abaixo de mil vira exatamente seus três
/// algarismos, centenas primeiro.
proof fn lemma_three_digits(n: nat)
    requires
        n < 1000,
    ensures
        zero_padded(n, 3) == seq![digit_char(n / 100), digit_char((n / 10) % 10), digit_char(n % 10)],
{
    reveal_with_fuel(decimal, 3);
    lemma_decimal_len(n);
    let d = decimal(n);
    if n < 10 {
        assert(zero_padded(n, 3) =~= seq!['0', '0', digit_char(n)]);
    } else if n < 100 {
        assert(decimal(n / 10) == seq![digit_char(n / 10)]);
        assert(zero_padded(n, 3) =~= seq!['0', digit_char(n / 10), digit_char(n % 10)]);
    } else {
        assert(decimal(n / 100) == seq![digit_char(n / 100)]);
        assert(decimal(n / 10) =~= seq![digit_char(n / 100), digit_char((n / 10) % 10)]);
        assert(zero_padded(n, 3) =~= seq![
            digit_char(n / 100),
            digit_char((n / 10) % 10),
            digit_char(n % 10),
        ]);
    }
}

/// Com duas casas, um número abaixo de cem vira exatamente seus dois
/// algarismos, dezenas primeiro.
proof fn lemma_two_digits(n: nat)
    requires
        n < 100,
    ensures
        zero_padded(n, 2) == seq![digit_char(n / 10), digit_char(n % 10)],
{
    reveal_with_fuel(decimal, 2);
    lemma_decimal_len(n);
    if n < 10 {
        assert(zero_padded(n, 2) =~= seq!['0', digit_char(n)]);
    } else {
        assert(decimal(n / 10) == seq![digit_char(n / 10)]);
        assert(zero_padded(n, 2) =~= seq![digit_char(n / 10), digit_char(n % 10)]);
    }
}

/// Minutos, segundos e milissegundos, com seus algarismos, recompõem `ms`.
proof fn lemma_millis_split(ms: nat)
    ensures
        ({
            let secs = (ms % 60_000) / 1000;
            let millis = ms % 1000;
            &&& secs < 60
            &&& ms == 60_000 * (ms / 60_000) + 1000 * (10 * (secs / 10) + secs % 10) + 100 * (millis
                / 100) + 10 * ((millis / 10) % 10) + millis % 10
        }),
{
    let r = ms % 60_000;
    let secs = r / 1000;
    let millis = ms % 1000;
    assert(ms == 60_000 * (ms / 60_000) + r);
    assert(r == 1000 * secs + r % 1000);
    assert(r % 1000 == millis) by {
        assert(ms == 60_000 * (ms / 60_000) + r);
        assert(ms == 1000 * (60 * (ms / 60_000) + secs) + r % 1000);
        assert(0 <= r % 1000 < 1000);
        vstd::arithmetic::div_mod::lemma_fundamental_div_mod_converse(
            ms as int,
            1000,
            (60 * (ms / 60_000) + secs) as int,
            (r % 1000) as int,
        );
    }
    assert(secs == 10 * (secs / 10) + secs % 10);
    assert(millis == 100 * (millis / 100) + millis % 100);
    assert(millis % 100 == 10 * ((millis / 10) % 10) + millis % 10) by {
        let a = millis / 10;
        assert(millis == 10 * a + millis % 10);
        assert(a == 10 * (a / 10) + a % 10);
        assert(millis == 100 * (a / 10) + 10 * (a % 10) + millis % 10);
        assert(a / 10 == millis / 100);
        assert(millis == 100 * (millis / 100) + 10 * (a % 10) + millis % 10);
    }
}

/// O arredondamento fica a no máximo meio milissegundo do tempo dado.
proof fn lemma_rounding(us: nat)
    ensures
        1000 * rounded_millis(us) <= us + 500,
        us < 1000 * rounded_millis(us) + 500,
{
    assert(us == 1000 * (us / 1000) + us % 1000);
}

/// Um tempo `m:ss.mmm` se lê de volta: os minutos em decimal, `:`, dois
/// algarismos de segundos abaixo de 60, `.` e sempre três algarismos de
/// milissegundos; minutos, segundos e milissegundos juntos dão o tempo
/// arredondado ao milissegundo mais próximo, a no máximo meio milissegundo
/// do tempo dado.
pub proof fn lemma_lap_time_reads_back(us: nat)
    ensures
        ({
            let ms = rounded_millis(us);
            let t = lap_time_text(us);
            let m = decimal(ms / 60_000);
            let k = m.len() as int;
            &&& t.len() == k + 7
            &&& t.subrange(0, k) == m
            &&& t[k] == ':'
            &&& t[k + 3] == '.'
            &&& is_digit(t[k + 1]) && is_digit(t[k + 2])
            &&& is_digit(t[k + 4]) && is_digit(t[k + 5]) && is_digit(t[k + 6])
            &&& 10 * digit_value(t[k + 1]) + digit_value(t[k + 2]) < 60
            &&& ms == 60_000 * (ms / 60_000) + 1000 * (10 * digit_value(t[k + 1]) + digit_value(
                t[k + 2],
            )) + 100 * digit_value(t[k + 4]) + 10 * digit_value(t[k + 5]) + digit_value(t[k + 6])
            &&& 1000 * ms <= us + 500
            &&& us < 1000 * ms + 500
        }),
{
    let ms = rounded_millis(us);
    let secs = (ms % 60_000) / 1000;
    let millis = ms % 1000;
    lemma_rounding(us);
    lemma_millis_split(ms);
    lemma_two_digits(secs);
    lemma_three_digits(millis);
    lemma_digit_char(secs / 10);
    lemma_digit_char(secs % 10);
    lemma_digit_char(millis / 100);
    lemma_digit_char((millis / 10) % 10);
    lemma_digit_char(millis % 10);
    let m = decimal(ms / 60_000);
    let k = m.len() as int;
    let tail = seq![':', digit_char(secs / 10), digit_char(secs % 10), '.', digit_char(
        millis / 100,
    ), digit_char((millis / 10) % 10), digit_char(millis % 10)];
    let t = lap_time_text(us);
    assert(t =~= m + tail);
    assert(t.subrange(0, k) =~= m);
    assert(t[k + 1] == digit_char(secs / 10));
    assert(t[k + 2] == digit_char(secs % 10));
    assert(t[k + 4] == digit_char(millis / 100));
    assert(t[k + 5] == digit_char((millis / 10) % 10));
    assert(t[k + 6] == digit_char(millis % 10));
}

/// Um tempo formatado, ou `--` quando ainda não existe.
pub open spec fn optional_time_text(time_us: Option<u64>) -> Seq<char> {
    match time_us {
        Some(us) => lap_time_text(us as nat),
        None => "--"@,
    }
}

/// Formata um tempo que pode ainda não existir.
pub fn format_optional_time(time_us: Option<u64>) -> (text: String)
    ensures
        text@ == optional_time_text(time_us),
{
    match time_us {
        Some(us) => format_lap_time(us),
        None => String::from_str("--"),
    }
}

} // verus!
