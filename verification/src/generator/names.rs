//! The pool from which stars take their names.

use vstd::prelude::*;

verus! {

/// Proper names of stars, in the fixed order in which a draw indexes them.
pub const NAMES: [&'static str; 86] = [
    "Achernar", "Acrux", "Adhara", "Albireo",
    "Alcor", "Alcyone", "Aldebaran", "Alderamin",
    "Algieba", "Algol", "Alhena", "Alioth",
    "Alkaid", "Almach", "Alnair", "Alnilam",
    "Alnitak", "Alphard", "Alphecca", "Alpheratz",
    "Altair", "Ankaa", "Antares", "Arcturus",
    "Atria", "Avior", "Bellatrix", "Betelgeuse",
    "Canopus", "Capella", "Caph", "Castor",
    "Deneb", "Denebola", "Diphda", "Dubhe",
    "Elnath", "Eltanin", "Enif", "Fomalhaut",
    "Gacrux", "Gienah", "Hadar", "Hamal",
    "Izar", "Kochab", "Markab", "Megrez",
    "Menkalinan", "Menkar", "Merak", "Miaplacidus",
    "Mimosa", "Mintaka", "Mira", "Mirach",
    "Mirfak", "Mirzam", "Mizar", "Naos",
    "Nunki", "Peacock", "Phecda", "Polaris",
    "Pollux", "Procyon", "Rasalhague", "Regulus",
    "Rigel", "Sabik", "Sadr", "Saiph",
    "Sargas", "Scheat", "Schedar", "Shaula",
    "Sirius", "Spica", "Suhail", "Tarazed",
    "Thuban", "Unukalhai", "Vega", "Wezen",
    "Zosma", "Zubenelgenubi",
];

} // verus!
