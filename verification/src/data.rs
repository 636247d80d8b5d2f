use vstd::assert_seqs_equal;
use vstd::prelude::*;

use crate::configuration::Settings;
use crate::model::{products_view, Product, ProductModel};

verus! {

/// The catalog as a mathematical sequence: the fixed records the accessor
/// returns, in ascending id order.
pub open spec fn catalog() -> Seq<ProductModel> {
    seq![
        ProductModel {
            id: 1,
            name: "Santa Catnip's Friend"@,
            price_cents: 999,
            description: "Watch your feline friend embark on a fishing adventure with Santa Catnip's Friend toy. Packed with irresistible catnip and dangling fish lure."@,
            image: "/catnip.jpg"@,
        },
        ProductModel {
            id: 2,
            name: "Salty Sailor's Squeaky Squid"@,
            price_cents: 699,
            description: "Let your dog set sail with the Salty Sailor's Squeaky Squid. This interactive toy provides hours of fun, featuring multiple squeakers and crinkle tentacles."@,
            image: "/squid.jpg"@,
        },
        ProductModel {
            id: 3,
            name: "Mermaid's Mice Trio"@,
            price_cents: 1299,
            description: "Entertain your kitty with the Mermaid's Mice Trio. These adorable plush mice are dressed as mermaids and filled with catnip to captivate their curiosity."@,
            image: "/mermaid.jpg"@,
        },
        ProductModel {
            id: 4,
            name: "Ocean Explorer's Puzzle Ball"@,
            price_cents: 1199,
            description: "Challenge your pet's problem-solving skills with the Ocean Explorer's Puzzle Ball. This interactive toy features hidden compartments and treats, providing mental stimulation and entertainment."@,
            image: "/ocean.jpg"@,
        },
        ProductModel {
            id: 5,
            name: "Pirate Parrot Teaser Wand"@,
            price_cents: 899,
            description: "Engage your cat in a playful pursuit with the Pirate Parrot Teaser Wand. The colorful feathers and jingling bells mimic the mischievous charm of a pirate's parrot."@,
            image: "/pirate.jpg"@,
        },
        ProductModel {
            id: 6,
            name: "Seafarer's Tug Rope"@,
            price_cents: 1499,
            description: "Tug-of-war meets nautical adventure with the Seafarer's Tug Rope. Made from marine-grade rope, it's perfect for interactive play and promoting dental health in dogs."@,
            image: "/tug.jpg"@,
        },
        ProductModel {
            id: 7,
            name: "Seashell Snuggle Bed"@,
            price_cents: 1999,
            description: "Give your furry friend a cozy spot to curl up with the Seashell Snuggle Bed. Shaped like a seashell, this plush bed provides comfort and relaxation for cats and small dogs."@,
            image: "/bed.jpg"@,
        },
        ProductModel {
            id: 8,
            name: "Nautical Knot Ball"@,
            price_cents: 799,
            description: "Unleash your dog's inner sailor with the Nautical Knot Ball. Made from sturdy ropes, it's perfect for fetching, tugging, and satisfying their chewing needs."@,
            image: "/knot.jpg"@,
        },
        ProductModel {
            id: 9,
            name: "Santa Claw's Crabby Cat Toy"@,
            price_cents: 399,
            description: "Watch your cat go crazy for Santa Claw's Crabby Cat Toy. This crinkly and catnip-filled toy will awaken their hunting instincts and provide endless entertainment."@,
            image: "/crabby.jpg"@,
        },
        ProductModel {
            id: 10,
            name: "Ahoy Doggy Life Jacket"@,
            price_cents: 599,
            description: "Ensure your furry friend stays safe during water adventures with the Ahoy Doggy Life Jacket. Designed for dogs, this flotation device offers buoyancy and visibility in style."@,
            image: "/lifejacket.jpg"@,
        },
        ProductModel {
            id: 11,
            name: "CloudBrew Plush Mascot"@,
            price_cents: 1199,
            description: "Meet the CloudBrew Plush Mascot, the cutest companion for cloud enthusiasts, techies, and conference lovers alike! This limited-edition plush toy features a soft sky-blue body, fluffy cloud-foam top, and a friendly embroidered smile that instantly brightens any workspace."@,
            image: "/cloudbrew.jpg"@,
        },
        ProductModel {
            id: 12,
            name: "Azura the Cloud Elephant"@,
            price_cents: 1199,
            description: "This squishy blue elephant may look soft as a cloud, but she’s secretly on a mission: protect your sofa from unauthorized chewing attempts. Built with “infinite scaling” squeaks and “geo-redundant fluff,” Azura is ready for dogs and cats who take uptime very seriously. Perfect for snuggles, zoomies, and debugging bad moods."@,
            image: "/elephant.jpg"@,
        },
        ProductModel {
            id: 13,
            name: "HotRod Racer"@,
            price_cents: 1199,
            description: "This plush brings horsepower to nap time. Super soft exterior, high-octane fluff interior, and a squeaker that sounds like a tiny engine revving. Ideal for pets who like to zoom first and cuddle later."@,
            image: "/hotrod.jpg"@,
        },
        ProductModel {
            id: 14,
            name: "Blockchain dilemma pillow"@,
            price_cents: 572,
            description: "Built for dogs who can’t sleep because they’re still deciding whether to put their bones on-chain. Fluffy, comfy, and ideal for long nights of overthinking complex paw-to-paw ledgers."@,
            image: "/pillow.jpg"@,
        },
    ]
}

/// Returns the full catalog as a freshly built vector, in ascending id
/// order. The settings are reserved for a future choice of data source;
/// the result does not depend on them, so any two calls agree.
pub fn fetch_products(_settings: &Settings) -> (products: Vec<Product>)
    ensures
        products_view(products@) == catalog(),
        products@.len() == catalog().len(),
{
    let mut products: Vec<Product> = Vec::new();
    products.push(Product {
        id: 1,
        name: "Santa Catnip's Friend".to_owned(),
        price_cents: 999,
        description: "Watch your feline friend embark on a fishing adventure with Santa Catnip's Friend toy. Packed with irresistible catnip and dangling fish lure.".to_owned(),
        image: "/catnip.jpg".to_owned(),
    });
    products.push(Product {
        id: 2,
        name: "Salty Sailor's Squeaky Squid".to_owned(),
        price_cents: 699,
        description: "Let your dog set sail with the Salty Sailor's Squeaky Squid. This interactive toy provides hours of fun, featuring multiple squeakers and crinkle tentacles.".to_owned(),
        image: "/squid.jpg".to_owned(),
    });
    products.push(Product {
        id: 3,
        name: "Mermaid's Mice Trio".to_owned(),
        price_cents: 1299,
        description: "Entertain your kitty with the Mermaid's Mice Trio. These adorable plush mice are dressed as mermaids and filled with catnip to captivate their curiosity.".to_owned(),
        image: "/mermaid.jpg".to_owned(),
    });
    products.push(Product {
        id: 4,
        name: "Ocean Explorer's Puzzle Ball".to_owned(),
        price_cents: 1199,
        description: "Challenge your pet's problem-solving skills with the Ocean Explorer's Puzzle Ball. This interactive toy features hidden compartments and treats, providing mental stimulation and entertainment.".to_owned(),
        image: "/ocean.jpg".to_owned(),
    });
    products.push(Product {
        id: 5,
        name: "Pirate Parrot Teaser Wand".to_owned(),
        price_cents: 899,
        description: "Engage your cat in a playful pursuit with the Pirate Parrot Teaser Wand. The colorful feathers and jingling bells mimic the mischievous charm of a pirate's parrot.".to_owned(),
        image: "/pirate.jpg".to_owned(),
    });
    products.push(Product {
        id: 6,
        name: "Seafarer's Tug Rope".to_owned(),
        price_cents: 1499,
        description: "Tug-of-war meets nautical adventure with the Seafarer's Tug Rope. Made from marine-grade rope, it's perfect for interactive play and promoting dental health in dogs.".to_owned(),
        image: "/tug.jpg".to_owned(),
    });
    products.push(Product {
        id: 7,
        name: "Seashell Snuggle Bed".to_owned(),
        price_cents: 1999,
        description: "Give your furry friend a cozy spot to curl up with the Seashell Snuggle Bed. Shaped like a seashell, this plush bed provides comfort and relaxation for cats and small dogs.".to_owned(),
        image: "/bed.jpg".to_owned(),
    });
    products.push(Product {
        id: 8,
        name: "Nautical Knot Ball".to_owned(),
        price_cents: 799,
        description: "Unleash your dog's inner sailor with the Nautical Knot Ball. Made from sturdy ropes, it's perfect for fetching, tugging, and satisfying their chewing needs.".to_owned(),
        image: "/knot.jpg".to_owned(),
    });
    products.push(Product {
        id: 9,
        name: "Santa Claw's Crabby Cat Toy".to_owned(),
        price_cents: 399,
        description: "Watch your cat go crazy for Santa Claw's Crabby Cat Toy. This crinkly and catnip-filled toy will awaken their hunting instincts and provide endless entertainment.".to_owned(),
        image: "/crabby.jpg".to_owned(),
    });
    products.push(Product {
        id: 10,
        name: "Ahoy Doggy Life Jacket".to_owned(),
        price_cents: 599,
        description: "Ensure your furry friend stays safe during water adventures with the Ahoy Doggy Life Jacket. Designed for dogs, this flotation device offers buoyancy and visibility in style.".to_owned(),
        image: "/lifejacket.jpg".to_owned(),
    });
    products.push(Product {
        id: 11,
        name: "CloudBrew Plush Mascot".to_owned(),
        price_cents: 1199,
        description: "Meet the CloudBrew Plush Mascot, the cutest companion for cloud enthusiasts, techies, and conference lovers alike! This limited-edition plush toy features a soft sky-blue body, fluffy cloud-foam top, and a friendly embroidered smile that instantly brightens any workspace.".to_owned(),
        image: "/cloudbrew.jpg".to_owned(),
    });
    products.push(Product {
        id: 12,
        name: "Azura the Cloud Elephant".to_owned(),
        price_cents: 1199,
        description: "This squishy blue elephant may look soft as a cloud, but she’s secretly on a mission: protect your sofa from unauthorized chewing attempts. Built with “infinite scaling” squeaks and “geo-redundant fluff,” Azura is ready for dogs and cats who take uptime very seriously. Perfect for snuggles, zoomies, and debugging bad moods.".to_owned(),
        image: "/elephant.jpg".to_owned(),
    });
    products.push(Product {
        id: 13,
        name: "HotRod Racer".to_owned(),
        price_cents: 1199,
        description: "This plush brings horsepower to nap time. Super soft exterior, high-octane fluff interior, and a squeaker that sounds like a tiny engine revving. Ideal for pets who like to zoom first and cuddle later.".to_owned(),
        image: "/hotrod.jpg".to_owned(),
    });
    products.push(Product {
        id: 14,
        name: "Blockchain dilemma pillow".to_owned(),
        price_cents: 572,
        description: "Built for dogs who can’t sleep because they’re still deciding whether to put their bones on-chain. Fluffy, comfy, and ideal for long nights of overthinking complex paw-to-paw ledgers.".to_owned(),
        image: "/pillow.jpg".to_owned(),
    });
    proof {
        assert_seqs_equal!(products_view(products@), catalog());
    }
    products
}

/// The catalog holds exactly fourteen records; in particular the accessor
/// never returns an empty sequence.
pub proof fn lemma_catalog_len()
    ensures
        catalog().len() == 14,
{
}

/// Ids ascend one by one from 1: the record at position `i` carries id
/// `i + 1`.
pub proof fn lemma_catalog_ids()
    ensures
        forall|i: int| 0 <= i < catalog().len() ==> #[trigger] catalog()[i].id == i + 1,
{
}

/// No two records of the catalog share an id.
pub proof fn lemma_catalog_ids_unique()
    ensures
        forall|i: int, j: int|
            0 <= i < catalog().len() && 0 <= j < catalog().len() && i != j ==> catalog()[i].id
                != catalog()[j].id,
{
    lemma_catalog_ids();
}

/// The catalog is sorted by strictly ascending id.
pub proof fn lemma_catalog_sorted_by_id()
    ensures
        forall|i: int, j: int| 0 <= i < j < catalog().len() ==> catalog()[i].id < catalog()[j].id,
{
    lemma_catalog_ids();
}

/// Every record of the catalog is fully populated: the name, description
/// and image are non-empty. The price needs no clause here: it is a `u64`
/// count of cents, so it can never be negative.
pub proof fn lemma_catalog_fields_complete()
    ensures
        forall|i: int|
            0 <= i < catalog().len() ==> (#[trigger] catalog()[i]).name.len() > 0
                && catalog()[i].description.len() > 0 && catalog()[i].image.len() > 0,
{
    reveal_strlit("Santa Catnip's Friend");
    reveal_strlit("Watch your feline friend embark on a fishing adventure with Santa Catnip's Friend toy. Packed with irresistible catnip and dangling fish lure.");
    reveal_strlit("/catnip.jpg");
    reveal_strlit("Salty Sailor's Squeaky Squid");
    reveal_strlit("Let your dog set sail with the Salty Sailor's Squeaky Squid. This interactive toy provides hours of fun, featuring multiple squeakers and crinkle tentacles.");
    reveal_strlit("/squid.jpg");
    reveal_strlit("Mermaid's Mice Trio");
    reveal_strlit("Entertain your kitty with the Mermaid's Mice Trio. These adorable plush mice are dressed as mermaids and filled with catnip to captivate their curiosity.");
    reveal_strlit("/mermaid.jpg");
    reveal_strlit("Ocean Explorer's Puzzle Ball");
    reveal_strlit("Challenge your pet's problem-solving skills with the Ocean Explorer's Puzzle Ball. This interactive toy features hidden compartments and treats, providing mental stimulation and entertainment.");
    reveal_strlit("/ocean.jpg");
    reveal_strlit("Pirate Parrot Teaser Wand");
    reveal_strlit("Engage your cat in a playful pursuit with the Pirate Parrot Teaser Wand. The colorful feathers and jingling bells mimic the mischievous charm of a pirate's parrot.");
    reveal_strlit("/pirate.jpg");
    reveal_strlit("Seafarer's Tug Rope");
    reveal_strlit("Tug-of-war meets nautical adventure with the Seafarer's Tug Rope. Made from marine-grade rope, it's perfect for interactive play and promoting dental health in dogs.");
    reveal_strlit("/tug.jpg");
    reveal_strlit("Seashell Snuggle Bed");
    reveal_strlit("Give your furry friend a cozy spot to curl up with the Seashell Snuggle Bed. Shaped like a seashell, this plush bed provides comfort and relaxation for cats and small dogs.");
    reveal_strlit("/bed.jpg");
    reveal_strlit("Nautical Knot Ball");
    reveal_strlit("Unleash your dog's inner sailor with the Nautical Knot Ball. Made from sturdy ropes, it's perfect for fetching, tugging, and satisfying their chewing needs.");
    reveal_strlit("/knot.jpg");
    reveal_strlit("Santa Claw's Crabby Cat Toy");
    reveal_strlit("Watch your cat go crazy for Santa Claw's Crabby Cat Toy. This crinkly and catnip-filled toy will awaken their hunting instincts and provide endless entertainment.");
    reveal_strlit("/crabby.jpg");
    reveal_strlit("Ahoy Doggy Life Jacket");
    reveal_strlit("Ensure your furry friend stays safe during water adventures with the Ahoy Doggy Life Jacket. Designed for dogs, this flotation device offers buoyancy and visibility in style.");
    reveal_strlit("/lifejacket.jpg");
    reveal_strlit("CloudBrew Plush Mascot");
    reveal_strlit("Meet the CloudBrew Plush Mascot, the cutest companion for cloud enthusiasts, techies, and conference lovers alike! This limited-edition plush toy features a soft sky-blue body, fluffy cloud-foam top, and a friendly embroidered smile that instantly brightens any workspace.");
    reveal_strlit("/cloudbrew.jpg");
    reveal_strlit("Azura the Cloud Elephant");
    reveal_strlit("This squishy blue elephant may look soft as a cloud, but she’s secretly on a mission: protect your sofa from unauthorized chewing attempts. Built with “infinite scaling” squeaks and “geo-redundant fluff,” Azura is ready for dogs and cats who take uptime very seriously. Perfect for snuggles, zoomies, and debugging bad moods.");
    reveal_strlit("/elephant.jpg");
    reveal_strlit("HotRod Racer");
    reveal_strlit("This plush brings horsepower to nap time. Super soft exterior, high-octane fluff interior, and a squeaker that sounds like a tiny engine revving. Ideal for pets who like to zoom first and cuddle later.");
    reveal_strlit("/hotrod.jpg");
    reveal_strlit("Blockchain dilemma pillow");
    reveal_strlit("Built for dogs who can’t sleep because they’re still deciding whether to put their bones on-chain. Fluffy, comfy, and ideal for long nights of overthinking complex paw-to-paw ledgers.");
    reveal_strlit("/pillow.jpg");
}

/// Any two results of the accessor are equal, record by record: whatever
/// settings each call was given, each result's view is the fixed catalog.
pub proof fn lemma_fetch_products_deterministic(a: Seq<Product>, b: Seq<Product>)
    requires
        products_view(a) == catalog(),
        products_view(b) == catalog(),
    ensures
        products_view(a) == products_view(b),
{
}

} // verus!
