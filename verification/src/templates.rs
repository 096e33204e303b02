//! The pieces of shell script from which the installation script is
//! assembled. Words in braces are filled in by `strfmt`.
use vstd::prelude::*;

verus! {

/// Opening of every installation script: shell options and the chosen locale, keymap and timezone.
pub const STANDARD_INSTALLATION_PROG: &'static str = r###"#! /bin/bash
set -e

SOCKET_PATH="/tmp/pikainstall-status.sock"

rm -rf /tmp/pika-installer-gtk4-swaplist
rm -rf /tmp/PIKA_CRYPT

PIKA_INSTALL_CHROOT_PATH='{CHROOT_PATH}'
PIKA_INSTALL_LOCALE='{LOCALE}.UTF-8'
PIKA_INSTALL_KEYMAP_BASE='{KEYMAP_BASE}'
PIKA_INSTALL_KEYMAP_VARIANT='{KEYMAP_VARIANT}'
PIKA_INSTALL_TIMEZONE='{TIMEZONE}'
"###;

/// Frees the target disk of automatic partitioning and wipes it.
pub const AUTOMATIC_STANDARD_INSTALLATION_PROG: &'static str = r###"

echo 'PARTING' | nc -U $SOCKET_PATH || true

PIKA_INSTALL_AUTO_TARGET_DISK={AUTO_INSTALL_TARGET_DISK}

# Unmount host partitions from chroot
umount "$PIKA_INSTALL_CHROOT_PATH/media/cdrom" || umount -lf "$PIKA_INSTALL_CHROOT_PATH/media/cdrom" || true
umount "$PIKA_INSTALL_CHROOT_PATH/dev" || umount -lf "$PIKA_INSTALL_CHROOT_PATH/dev" || true
umount "$PIKA_INSTALL_CHROOT_PATH/run" || umount -lf "$PIKA_INSTALL_CHROOT_PATH/run" || true
umount "$PIKA_INSTALL_CHROOT_PATH/proc" || umount -lf "$PIKA_INSTALL_CHROOT_PATH/proc" || true
umount "$PIKA_INSTALL_CHROOT_PATH/sys" || umount -lf "$PIKA_INSTALL_CHROOT_PATH/sys" || true

if echo "$PIKA_INSTALL_AUTO_TARGET_DISK" | grep -i "nvme"
then
	for part in $(/usr/lib/pika/pika-installer-gtk4/scripts/partition-utility.sh get_partitions | grep "$PIKA_INSTALL_AUTO_TARGET_DISK")p; do
		PARTITION="/dev/$part"
		swapoff $PARTITION || true
		umount -l $PARTITION || true
	done
else
	for part in $(/usr/lib/pika/pika-installer-gtk4/scripts/partition-utility.sh get_partitions | grep "$PIKA_INSTALL_AUTO_TARGET_DISK"); do
		PARTITION="/dev/$part"
		swapoff $PARTITION || true
		umount -l $PARTITION || true
	done
fi

wipefs -af /dev/"$PIKA_INSTALL_AUTO_TARGET_DISK"
blockdev --rereadpt /dev/"$PIKA_INSTALL_AUTO_TARGET_DISK" || systemctl restart systemd-udevd.service

"###;

/// Runs the installation onto the automatically created, unencrypted partitions.
pub const AUTOMATIC_OPEN_PART_PIKAINSTALL_PROG: &'static str = r###"

if [ -z "$PIKA_INSTALL_XKB_VARIANT" ]
then
pikainstall -r $PIKA_INSTALL_CHROOT_PATH -l $PIKA_INSTALL_LOCALE -k $PIKA_INSTALL_KEYMAP -kl $PIKA_INSTALL_XKB_LAYOUT -t $PIKA_INSTALL_TIMEZONE
else
pikainstall -r $PIKA_INSTALL_CHROOT_PATH -l $PIKA_INSTALL_LOCALE -k $PIKA_INSTALL_KEYMAP -kl $PIKA_INSTALL_XKB_LAYOUT -t $PIKA_INSTALL_TIMEZONE -kv $PIKA_INSTALL_XKB_VARIANT
fi
"###;

/// Runs the installation onto the automatically created, encrypted partitions.
pub const AUTOMATIC_LOCKED_PART_PIKAINSTALL_PROG: &'static str = r###"

if [ -z "$PIKA_INSTALL_XKB_VARIANT" ]
then
pikainstall -c "$PIKA_INSTALL_AUTO_LUKS_PASSWORD" -r "$PIKA_INSTALL_CHROOT_PATH" -l "$PIKA_INSTALL_LOCALE" -k "$PIKA_INSTALL_KEYMAP" -kl "$PIKA_INSTALL_XKB_LAYOUT" -t "$PIKA_INSTALL_TIMEZONE"
else
pikainstall -c "$PIKA_INSTALL_AUTO_LUKS_PASSWORD" -r "$PIKA_INSTALL_CHROOT_PATH" -l "$PIKA_INSTALL_LOCALE" -k "$PIKA_INSTALL_KEYMAP" -kl "$PIKA_INSTALL_XKB_LAYOUT" -t "$PIKA_INSTALL_TIMEZONE" -kv "$PIKA_INSTALL_XKB_VARIANT"
fi
"###;

/// Creates ext4 root and home partitions, unencrypted, and mounts them.
pub const AUTOMATIC_HOME_PART_EXT4_OPEN_INSTALLATION_PROG: &'static str = r###"
PIKA_INSTALL_AUTO_ROOT_SIZE={ROOT_PART_SIZE_AS_I64_MIB}

parted -s -a optimal /dev/"$PIKA_INSTALL_AUTO_TARGET_DISK" mklabel gpt \
mkpart "linux-efi"  1MiB 500Mib \
mkpart "linux-boot" 500Mib 1500Mib \
mkpart "linux-root" 1500Mib  "$PIKA_INSTALL_AUTO_ROOT_SIZE"Mib \
mkpart "linux-home" "$PIKA_INSTALL_AUTO_ROOT_SIZE"Mib  100% \
print

blockdev --rereadpt /dev/"$PIKA_INSTALL_AUTO_TARGET_DISK"

if echo "$PIKA_INSTALL_AUTO_TARGET_DISK" | grep -i "nvme"
then
#
sleep 10
# Add filesystems
yes | mkfs -t vfat -F 32 /dev/"$PIKA_INSTALL_AUTO_TARGET_DISK"p1
yes | mkfs -t ext4 /dev/"$PIKA_INSTALL_AUTO_TARGET_DISK"p2
yes | mkfs.ext4 -F /dev/"$PIKA_INSTALL_AUTO_TARGET_DISK"p3
yes | mkfs.ext4 -F /dev/"$PIKA_INSTALL_AUTO_TARGET_DISK"p4
sleep 2
# Begin Mounting
echo 'MOUNTING' | nc -U $SOCKET_PATH || true
mkdir -p $PIKA_INSTALL_CHROOT_PATH
mount /dev/"$PIKA_INSTALL_AUTO_TARGET_DISK"p3 $PIKA_INSTALL_CHROOT_PATH/
mkdir -p $PIKA_INSTALL_CHROOT_PATH/home
mount /dev/"$PIKA_INSTALL_AUTO_TARGET_DISK"p4 $PIKA_INSTALL_CHROOT_PATH/home
mkdir -p $PIKA_INSTALL_CHROOT_PATH/boot
mount /dev/"$PIKA_INSTALL_AUTO_TARGET_DISK"p2 $PIKA_INSTALL_CHROOT_PATH/boot
mkdir -p $PIKA_INSTALL_CHROOT_PATH/boot/efi
mount /dev/"$PIKA_INSTALL_AUTO_TARGET_DISK"p1 $PIKA_INSTALL_CHROOT_PATH/boot/efi
else
sleep 10
# Add filesystems
yes | mkfs -t vfat -F 32 /dev/"$PIKA_INSTALL_AUTO_TARGET_DISK"1
yes | mkfs -t ext4 /dev/"$PIKA_INSTALL_AUTO_TARGET_DISK"2
yes | mkfs.ext4 -F /dev/"$PIKA_INSTALL_AUTO_TARGET_DISK"3
yes | mkfs.ext4 -F /dev/"$PIKA_INSTALL_AUTO_TARGET_DISK"4
sleep 2
# Begin Mounting
echo 'MOUNTING' | nc -U $SOCKET_PATH || true
mkdir -p $PIKA_INSTALL_CHROOT_PATH
mount /dev/"$PIKA_INSTALL_AUTO_TARGET_DISK"3 $PIKA_INSTALL_CHROOT_PATH/
mkdir -p $PIKA_INSTALL_CHROOT_PATH/home
mount /dev/"$PIKA_INSTALL_AUTO_TARGET_DISK"4 $PIKA_INSTALL_CHROOT_PATH/home
mkdir -p $PIKA_INSTALL_CHROOT_PATH/boot
mount /dev/"$PIKA_INSTALL_AUTO_TARGET_DISK"2 $PIKA_INSTALL_CHROOT_PATH/boot
mkdir -p $PIKA_INSTALL_CHROOT_PATH/boot/efi
mount /dev/"$PIKA_INSTALL_AUTO_TARGET_DISK"1 $PIKA_INSTALL_CHROOT_PATH/boot/efi
fi

"###;

/// Creates encrypted ext4 root and home partitions and mounts them.
pub const AUTOMATIC_HOME_PART_EXT4_LOCKED_INSTALLATION_PROG: &'static str = r###"

PIKA_INSTALL_AUTO_LUKS_PASSWORD='{AUTO_LUKS_PASSWORD}'
PIKA_INSTALL_AUTO_ROOT_SIZE={ROOT_PART_SIZE_AS_I64_MIB}

parted -s -a optimal /dev/"$PIKA_INSTALL_AUTO_TARGET_DISK" mklabel gpt \
mkpart "linux-efi"  1MiB 500Mib \
mkpart "linux-boot" 500Mib 1500Mib \
mkpart "linux-root" 1500Mib  "$PIKA_INSTALL_AUTO_ROOT_SIZE"Mib \
mkpart "linux-home" "$PIKA_INSTALL_AUTO_ROOT_SIZE"Mib  100% \
print

blockdev --rereadpt /dev/"$PIKA_INSTALL_AUTO_TARGET_DISK"

# add p to partition if it's nvme
if echo "$PIKA_INSTALL_AUTO_TARGET_DISK" | grep -i "nvme"
then
sleep 10
# Add filesystems
yes | mkfs -t vfat -F 32 /dev/"$PIKA_INSTALL_AUTO_TARGET_DISK"p1
yes | mkfs -t ext4 /dev/"$PIKA_INSTALL_AUTO_TARGET_DISK"p2
printf "$PIKA_INSTALL_AUTO_LUKS_PASSWORD" | cryptsetup -q -v --type luks2 luksFormat /dev/"$PIKA_INSTALL_AUTO_TARGET_DISK"p3
printf "$PIKA_INSTALL_AUTO_LUKS_PASSWORD" | cryptsetup -q -v --type luks2 luksFormat /dev/"$PIKA_INSTALL_AUTO_TARGET_DISK"p4
printf "$PIKA_INSTALL_AUTO_LUKS_PASSWORD" | cryptsetup -q -v luksOpen /dev/"$PIKA_INSTALL_AUTO_TARGET_DISK"p3 crypt_root
printf "$PIKA_INSTALL_AUTO_LUKS_PASSWORD" | cryptsetup -q -v luksOpen /dev/"$PIKA_INSTALL_AUTO_TARGET_DISK"p4 crypt_home
yes | mkfs.ext4 -F /dev/mapper/crypt_root
yes | mkfs.ext4 -F /dev/mapper/crypt_home
sleep 2
# Begin Mounting
echo 'MOUNTING' | nc -U $SOCKET_PATH || true
mkdir -p $PIKA_INSTALL_CHROOT_PATH
mount /dev/mapper/crypt_root $PIKA_INSTALL_CHROOT_PATH/
mkdir -p $PIKA_INSTALL_CHROOT_PATH/home
mount /dev/mapper/crypt_home $PIKA_INSTALL_CHROOT_PATH/home
mkdir -p $PIKA_INSTALL_CHROOT_PATH/boot
mount /dev/"$PIKA_INSTALL_AUTO_TARGET_DISK"p2 $PIKA_INSTALL_CHROOT_PATH/boot
mkdir -p $PIKA_INSTALL_CHROOT_PATH/boot/efi
mount /dev/"$PIKA_INSTALL_AUTO_TARGET_DISK"p1 $PIKA_INSTALL_CHROOT_PATH/boot/efi
else
sleep 10
# Add filesystems
yes | mkfs -t vfat -F 32 /dev/"$PIKA_INSTALL_AUTO_TARGET_DISK"1
yes | mkfs -t ext4 /dev/"$PIKA_INSTALL_AUTO_TARGET_DISK"2
printf "$PIKA_INSTALL_AUTO_LUKS_PASSWORD" | cryptsetup -q -v --type luks2 luksFormat /dev/"$PIKA_INSTALL_AUTO_TARGET_DISK"3
printf "$PIKA_INSTALL_AUTO_LUKS_PASSWORD" | cryptsetup -q -v --type luks2 luksFormat /dev/"$PIKA_INSTALL_AUTO_TARGET_DISK"4
printf "$PIKA_INSTALL_AUTO_LUKS_PASSWORD" | cryptsetup -q -v luksOpen /dev/"$PIKA_INSTALL_AUTO_TARGET_DISK"3 crypt_root
printf "$PIKA_INSTALL_AUTO_LUKS_PASSWORD" | cryptsetup -q -v luksOpen /dev/"$PIKA_INSTALL_AUTO_TARGET_DISK"4 crypt_home
yes | mkfs.ext4 -F /dev/mapper/crypt_root
yes | mkfs.ext4 -F /dev/mapper/crypt_home
sleep 2
# Begin Mounting
echo 'MOUNTING' | nc -U $SOCKET_PATH || true
mkdir -p $PIKA_INSTALL_CHROOT_PATH
mount /dev/mapper/crypt_root $PIKA_INSTALL_CHROOT_PATH/
mkdir -p $PIKA_INSTALL_CHROOT_PATH/home
mount /dev/mapper/crypt_home $PIKA_INSTALL_CHROOT_PATH/home
mkdir -p $PIKA_INSTALL_CHROOT_PATH/boot
mount /dev/"$PIKA_INSTALL_AUTO_TARGET_DISK"2 $PIKA_INSTALL_CHROOT_PATH/boot
mkdir -p $PIKA_INSTALL_CHROOT_PATH/boot/efi
mount /dev/"$PIKA_INSTALL_AUTO_TARGET_DISK"1 $PIKA_INSTALL_CHROOT_PATH/boot/efi
fi

"###;

/// Creates one unencrypted ext4 root partition and mounts it.
pub const AUTOMATIC_HOME_NONE_EXT4_OPEN_INSTALLATION_PROG: &'static str = r###"

parted -s -a optimal /dev/"$PIKA_INSTALL_AUTO_TARGET_DISK" mklabel gpt \
mkpart "linux-efi"  1MiB 500Mib \
mkpart "linux-boot" 500Mib 1500Mib \
mkpart "linux-root" 1500Mib  100%Mib \
print

blockdev --rereadpt /dev/"$PIKA_INSTALL_AUTO_TARGET_DISK"

if echo "$PIKA_INSTALL_AUTO_TARGET_DISK" | grep -i "nvme"
then
#
sleep 10
# Add filesystems
yes | mkfs -t vfat -F 32 /dev/"$PIKA_INSTALL_AUTO_TARGET_DISK"p1
yes | mkfs -t ext4 /dev/"$PIKA_INSTALL_AUTO_TARGET_DISK"p2
yes | mkfs.ext4 -F /dev/"$PIKA_INSTALL_AUTO_TARGET_DISK"p3
sleep 2
# Begin Mounting
echo 'MOUNTING' | nc -U $SOCKET_PATH || true
mkdir -p $PIKA_INSTALL_CHROOT_PATH
mount /dev/"$PIKA_INSTALL_AUTO_TARGET_DISK"p3 $PIKA_INSTALL_CHROOT_PATH/
mkdir -p $PIKA_INSTALL_CHROOT_PATH/boot
mount /dev/"$PIKA_INSTALL_AUTO_TARGET_DISK"p2 $PIKA_INSTALL_CHROOT_PATH/boot
mkdir -p $PIKA_INSTALL_CHROOT_PATH/boot/efi
mount /dev/"$PIKA_INSTALL_AUTO_TARGET_DISK"p1 $PIKA_INSTALL_CHROOT_PATH/boot/efi
else
sleep 10
# Add filesystems
yes | mkfs -t vfat -F 32 /dev/"$PIKA_INSTALL_AUTO_TARGET_DISK"1
yes | mkfs -t ext4 /dev/"$PIKA_INSTALL_AUTO_TARGET_DISK"2
yes | mkfs.ext4 -F /dev/"$PIKA_INSTALL_AUTO_TARGET_DISK"3
sleep 2
# Begin Mounting
echo 'MOUNTING' | nc -U $SOCKET_PATH || true
mkdir -p $PIKA_INSTALL_CHROOT_PATH
mount /dev/"$PIKA_INSTALL_AUTO_TARGET_DISK"3 $PIKA_INSTALL_CHROOT_PATH/
mkdir -p $PIKA_INSTALL_CHROOT_PATH/boot
mount /dev/"$PIKA_INSTALL_AUTO_TARGET_DISK"2 $PIKA_INSTALL_CHROOT_PATH/boot
mkdir -p $PIKA_INSTALL_CHROOT_PATH/boot/efi
mount /dev/"$PIKA_INSTALL_AUTO_TARGET_DISK"1 $PIKA_INSTALL_CHROOT_PATH/boot/efi
fi

"###;

/// Creates one encrypted ext4 root partition and mounts it.
pub const AUTOMATIC_HOME_NONE_EXT4_LOCKED_INSTALLATION_PROG: &'static str = r###"

PIKA_INSTALL_AUTO_LUKS_PASSWORD='{AUTO_LUKS_PASSWORD}'

parted -s -a optimal /dev/"$PIKA_INSTALL_AUTO_TARGET_DISK" mklabel gpt \
mkpart "linux-efi"  1MiB 500Mib \
mkpart "linux-boot" 500Mib 1500Mib \
mkpart "linux-root" 1500Mib  100%Mib \
print

blockdev --rereadpt /dev/"$PIKA_INSTALL_AUTO_TARGET_DISK"

# add p to partition if it's nvme
if echo "$PIKA_INSTALL_AUTO_TARGET_DISK" | grep -i "nvme"
then
sleep 10
# Add filesystems
yes | mkfs -t vfat -F 32 /dev/"$PIKA_INSTALL_AUTO_TARGET_DISK"p1
yes | mkfs -t ext4 /dev/"$PIKA_INSTALL_AUTO_TARGET_DISK"p2
printf "$PIKA_INSTALL_AUTO_LUKS_PASSWORD" | cryptsetup -q -v --type luks2 luksFormat /dev/"$PIKA_INSTALL_AUTO_TARGET_DISK"p3
printf "$PIKA_INSTALL_AUTO_LUKS_PASSWORD" | cryptsetup -q -v luksOpen /dev/"$PIKA_INSTALL_AUTO_TARGET_DISK"p3 crypt_root
yes | mkfs.ext4 -F /dev/mapper/crypt_root
sleep 2
# Begin Mounting
echo 'MOUNTING' | nc -U $SOCKET_PATH || true
mkdir -p $PIKA_INSTALL_CHROOT_PATH
mount /dev/mapper/crypt_root $PIKA_INSTALL_CHROOT_PATH/
mkdir -p $PIKA_INSTALL_CHROOT_PATH/boot
mount /dev/"$PIKA_INSTALL_AUTO_TARGET_DISK"p2 $PIKA_INSTALL_CHROOT_PATH/boot
mkdir -p $PIKA_INSTALL_CHROOT_PATH/boot/efi
mount /dev/"$PIKA_INSTALL_AUTO_TARGET_DISK"p1 $PIKA_INSTALL_CHROOT_PATH/boot/efi
else
sleep 10
# Add filesystems
yes | mkfs -t vfat -F 32 /dev/"$PIKA_INSTALL_AUTO_TARGET_DISK"1
yes | mkfs -t ext4 /dev/"$PIKA_INSTALL_AUTO_TARGET_DISK"2
printf "$PIKA_INSTALL_AUTO_LUKS_PASSWORD" | cryptsetup -q -v --type luks2 luksFormat /dev/"$PIKA_INSTALL_AUTO_TARGET_DISK"3
printf "$PIKA_INSTALL_AUTO_LUKS_PASSWORD" | cryptsetup -q -v luksOpen /dev/"$PIKA_INSTALL_AUTO_TARGET_DISK"3 crypt_root
yes | mkfs.ext4 -F /dev/mapper/crypt_root
sleep 2
# Begin Mounting
echo 'MOUNTING' | nc -U $SOCKET_PATH || true
mkdir -p $PIKA_INSTALL_CHROOT_PATH
mount /dev/mapper/crypt_root $PIKA_INSTALL_CHROOT_PATH/
mkdir -p $PIKA_INSTALL_CHROOT_PATH/boot
mount /dev/"$PIKA_INSTALL_AUTO_TARGET_DISK"2 $PIKA_INSTALL_CHROOT_PATH/boot
mkdir -p $PIKA_INSTALL_CHROOT_PATH/boot/efi
mount /dev/"$PIKA_INSTALL_AUTO_TARGET_DISK"1 $PIKA_INSTALL_CHROOT_PATH/boot/efi
fi

"###;

/// Mounts a chosen partition at its mountpoint.
pub const MANUAL_PARTITION_MOUNT_PROG: &'static str = r###"

mkdir -p "$PIKA_INSTALL_CHROOT_PATH"'{MOUNTPOINT}'
mount /dev/{PART} "$PIKA_INSTALL_CHROOT_PATH"'{MOUNTPOINT}'
"###;

/// Mounts a chosen partition at its mountpoint with mount options.
pub const MANUAL_PARTITION_MOUNT_WITH_OPTS_PROG: &'static str = r###"

mkdir -p "$PIKA_INSTALL_CHROOT_PATH"'{MOUNTPOINT}'
mount -o '{OPTS}' /dev/'{PART}' "$PIKA_INSTALL_CHROOT_PATH"'{MOUNTPOINT}'
"###;

/// Adds a chosen partition to the swap list.
pub const MANUAL_SWAP_MOUNT_PROG: &'static str = r###"

echo /dev/'{PART}' >> /tmp/pika-installer-gtk4-swaplist
"###;

/// Adds a crypttab line for a volume unlocked by hand at boot.
pub const MANUAL_CRYPT_ENTRY: &'static str = r###"

echo '{MAP} UUID={UUID} none luks,discard' >> /tmp/PIKA_CRYPT/crypttab
"###;

/// Adds a crypttab line for a volume unlocked by a key file, and enrols the key.
pub const MANUAL_CRYPT_ENTRY_WITH_KEYFILE: &'static str = r###"

echo '{MAP} UUID={UUID} /key-{MAP}.txt luks' >> /tmp/PIKA_CRYPT/crypttab
touch /tmp/PIKA_CRYPT/key-{MAP}.txt
openssl genrsa > /tmp/PIKA_CRYPT/key-{MAP}.txt
echo '{LUKS_PASSWD}' | cryptsetup luksAddKey UUID='{UUID}' /tmp/PIKA_CRYPT/key-{MAP}.txt -
"###;

/// Runs the installation onto the chosen, unencrypted partitions.
pub const MANUAL_OPEN_PART_PIKAINSTALL_PROG: &'static str = r###"

if [ -z "$PIKA_INSTALL_XKB_VARIANT" ]
then
pikainstall --manual 1 -r "$PIKA_INSTALL_CHROOT_PATH" -l "$PIKA_INSTALL_LOCALE" -k "$PIKA_INSTALL_KEYMAP" -kl "$PIKA_INSTALL_XKB_LAYOUT" -t "$PIKA_INSTALL_TIMEZONE"
else
pikainstall --manual 1 -r "$PIKA_INSTALL_CHROOT_PATH" -l "$PIKA_INSTALL_LOCALE" -k "$PIKA_INSTALL_KEYMAP" -kl "$PIKA_INSTALL_XKB_LAYOUT" -t "$PIKA_INSTALL_TIMEZONE" -kv "$PIKA_INSTALL_XKB_VARIANT"
fi
"###;

/// Runs the installation onto the chosen partitions, some of them encrypted.
pub const MANUAL_LOCKED_PART_PIKAINSTALL_PROG: &'static str = r###"

if [ -z "$PIKA_INSTALL_XKB_VARIANT" ]
then
pikainstall --manual 2 -r "$PIKA_INSTALL_CHROOT_PATH" -l "$PIKA_INSTALL_LOCALE" -k "$PIKA_INSTALL_KEYMAP" -kl "$PIKA_INSTALL_XKB_LAYOUT" -t "$PIKA_INSTALL_TIMEZONE"
else
pikainstall --manual 2 -r "$PIKA_INSTALL_CHROOT_PATH" -l "$PIKA_INSTALL_LOCALE" -k "$PIKA_INSTALL_KEYMAP" -kl "$PIKA_INSTALL_XKB_LAYOUT" -t "$PIKA_INSTALL_TIMEZONE" -kv "$PIKA_INSTALL_XKB_VARIANT"
fi
"###;

/// Prepares the directory in which the crypttab of the target is assembled.
pub const MANUAL_CRYPTTAB_PREPARE_PROG: &'static str = r###"
                    
mkdir -p /tmp/PIKA_CRYPT/
touch /tmp/PIKA_CRYPT/crypttab
                    
"###;

/// Creates the swap list before the first swap partition is added to it.
pub const MANUAL_SWAP_LIST_PREPARE_PROG: &'static str = r###"

touch /tmp/pika-installer-gtk4-swaplist

"###;

} // verus!
